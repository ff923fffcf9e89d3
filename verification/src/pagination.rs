//! Paginated lists: entries are split into pages of a bounded size, and the
//! embed for a page lists its entries with a description and a footer.
use vstd::prelude::*;
use crate::common::button_id;
use crate::text::{nat_decimal, push_str, push_u64, str_to_string};

verus! {

/// Which title variant entries show.
#[derive(Debug, Clone, Copy, PartialEq, Eq, Structural)]
pub enum PageType {
    Standard,
    Alternate,
}

/// Something that can be listed on a page: a title (in two variants) and a body.
pub trait PageRow {
    /// The text of the title shown for a page type.
    spec fn title_text(&self, page_type: PageType) -> Seq<char>;

    /// The text of the body.
    spec fn body_text(&self) -> Seq<char>;

    fn title(&self, page_type: PageType) -> (s: String)
        ensures
            s@ == self.title_text(page_type),
    ;

    fn body(&self) -> (s: String)
        ensures
            s@ == self.body_text(),
    ;
}

/// One listed entry, as the texts it displays.
pub struct PageEntry {
    pub standard_title: String,
    pub alternate_title: String,
    pub body: String,
}

/// The title an entry shows for a page type.
pub open spec fn entry_title(e: PageEntry, page_type: PageType) -> Seq<char> {
    match page_type {
        PageType::Standard => e.standard_title@,
        PageType::Alternate => e.alternate_title@,
    }
}

impl PageEntry {
    /// An entry with the same title for both page types.
    pub fn new(title: String, body: String) -> (e: PageEntry)
        ensures
            e.standard_title@ == title@,
            e.alternate_title@ == title@,
            e.body@ == body@,
    {
        let alternate_title = title.clone();
        PageEntry { standard_title: title, alternate_title, body }
    }

    /// The entry's texts, taken from a listable value.
    pub fn from_row<T: PageRow>(row: &T) -> (e: PageEntry)
        ensures
            e.standard_title@ == row.title_text(PageType::Standard),
            e.alternate_title@ == row.title_text(PageType::Alternate),
            e.body@ == row.body_text(),
    {
        PageEntry {
            standard_title: row.title(PageType::Standard),
            alternate_title: row.title(PageType::Alternate),
            body: row.body(),
        }
    }

    /// A copy of the entry.
    pub fn duplicate(&self) -> (e: PageEntry)
        ensures
            e == *self,
    {
        PageEntry {
            standard_title: self.standard_title.clone(),
            alternate_title: self.alternate_title.clone(),
            body: self.body.clone(),
        }
    }
}

/// One page of entries.
pub struct PaginationPage {
    pub entries: Vec<PageEntry>,
    pub page_number: usize,
    pub page_count: usize,
    pub entries_per_page: usize,
}

/// The texts of an embed showing a page.
pub struct PageEmbed {
    pub title: String,
    pub description: String,
    pub fields: Vec<(String, String)>,
    pub footer: Option<String>,
}

impl PaginationPage {
    /// The numbers shown for this page fit in a `usize`.
    pub open spec fn renderable(&self) -> bool {
        &&& self.page_number * self.entries_per_page + self.entries.len() <= usize::MAX
        &&& self.page_number * self.entries_per_page + 1 <= usize::MAX
        &&& self.page_number < usize::MAX
    }

    /// Whether the page holds no entries.
    pub fn is_empty(&self) -> (b: bool)
        ensures
            b == (self.entries.len() == 0),
    {
        self.entries.len() == 0
    }

    /// The embed texts for this page: `Showing entries a to b.`, one field per
    /// entry, and `Page n of m`.
    pub fn to_embed(&self, title: &str, page_type: PageType) -> (e: PageEmbed)
        requires
            self.renderable(),
        ensures
            e.title@ == title@,
            e.description@ == "Showing entries "@ + nat_decimal(
                (self.page_number * self.entries_per_page + 1) as nat,
            ) + " to "@ + nat_decimal(
                (self.page_number * self.entries_per_page + self.entries.len()) as nat,
            ) + "."@,
            e.fields@.len() == self.entries@.len(),
            forall|i: int|
                0 <= i < self.entries@.len() ==> (#[trigger] e.fields@[i]).0@ == entry_title(
                    self.entries@[i],
                    page_type,
                ) && e.fields@[i].1@ == self.entries@[i].body@,
            e.footer matches Some(f) && f@ == "Page "@ + nat_decimal((self.page_number + 1) as nat)
                + " of "@ + nat_decimal(self.page_count as nat),
    {
        let base = self.page_number * self.entries_per_page;
        let mut description = String::new();
        push_str(&mut description, "Showing entries ");
        push_u64(&mut description, (base + 1) as u64);
        push_str(&mut description, " to ");
        push_u64(&mut description, (base + self.entries.len()) as u64);
        push_str(&mut description, ".");
        let mut fields: Vec<(String, String)> = Vec::new();
        let mut i: usize = 0;
        while i < self.entries.len()
            invariant
                i <= self.entries@.len(),
                fields@.len() == i,
                forall|j: int|
                    0 <= j < i ==> (#[trigger] fields@[j]).0@ == entry_title(
                        self.entries@[j],
                        page_type,
                    ) && fields@[j].1@ == self.entries@[j].body@,
            decreases self.entries@.len() - i,
        {
            let entry = &self.entries[i];
            let t = match page_type {
                PageType::Standard => entry.standard_title.clone(),
                PageType::Alternate => entry.alternate_title.clone(),
            };
            fields.push((t, entry.body.clone()));
            i += 1;
        }
        let mut footer = String::new();
        push_str(&mut footer, "Page ");
        push_u64(&mut footer, (self.page_number + 1) as u64);
        push_str(&mut footer, " of ");
        push_u64(&mut footer, self.page_count as u64);
        PageEmbed { title: str_to_string(title), description, fields, footer: Some(footer) }
    }
}

/// Entries per page after capping at the 25 fields an embed may hold.
pub open spec fn capped_per_page(entries_per_page: nat) -> nat {
    if entries_per_page > 25 {
        25
    } else {
        entries_per_page
    }
}

/// Number of pages for `n` entries at `per_page` entries per page; an empty list has one (empty) page.
pub open spec fn page_count_for(n: nat, per_page: nat) -> nat {
    if n == 0 {
        1
    } else {
        n / per_page + if n % per_page > 0 {
            1nat
        } else {
            0nat
        }
    }
}

pub open spec fn min_int(a: int, b: int) -> int {
    if a <= b {
        a
    } else {
        b
    }
}

/// The entries of page `k`.
pub open spec fn page_slice(entries: Seq<PageEntry>, k: int, per_page: int) -> Seq<PageEntry> {
    entries.subrange(k * per_page, min_int((k + 1) * per_page, entries.len() as int))
}

/// A list split into pages.
pub struct Paginator {
    pub page_data: Vec<PaginationPage>,
    pub page_count: usize,
    pub title: String,
}

proof fn lemma_page_start(k: int, per_page: int, n: int, q: int, r: int)
    by (nonlinear_arith)
    requires
        per_page > 0,
        n > 0,
        n == q * per_page + r,
        0 <= r < per_page,
        0 <= k < q + if r > 0 {
            1int
        } else {
            0int
        },
    ensures
        0 <= k * per_page < n,
        k * per_page + per_page == (k + 1) * per_page,
{
}

impl Paginator {
    /// The pages are numbered in order, agree on the page count, and their
    /// numbers can be shown.
    pub open spec fn well_formed(&self) -> bool {
        &&& self.page_count >= 1
        &&& self.page_data@.len() == self.page_count
        &&& forall|k: int|
            0 <= k < self.page_data@.len() ==> (#[trigger] self.page_data@[k]).renderable()
                && self.page_data@[k].page_number == k && self.page_data@[k].page_count
                == self.page_count
    }

    /// Splits `entries` into pages of `entries_per_page` entries (at most 25),
    /// in order; an empty list gives a single empty page.
    pub fn new(title: &str, entries: &Vec<PageEntry>, entries_per_page: usize) -> (p: Paginator)
        requires
            entries.len() == 0 || entries_per_page > 0,
        ensures
            p.well_formed(),
            p.title@ == title@,
            p.page_count == page_count_for(
                entries@.len(),
                capped_per_page(entries_per_page as nat),
            ),
            forall|k: int|
                0 <= k < p.page_data@.len() ==> (#[trigger] p.page_data@[k]).entries@
                    == page_slice(entries@, k, capped_per_page(entries_per_page as nat) as int)
                    && p.page_data@[k].entries_per_page == capped_per_page(
                    entries_per_page as nat,
                ),
    {
        let per_page = if entries_per_page > 25 {
            25
        } else {
            entries_per_page
        };
        let n = entries.len();
        if n == 0 {
            let page = PaginationPage {
                entries: Vec::new(),
                page_number: 0,
                page_count: 1,
                entries_per_page: per_page,
            };
            let mut page_data = Vec::new();
            page_data.push(page);
            assert(page_slice(entries@, 0, per_page as int) =~= Seq::<PageEntry>::empty());
            return Paginator { page_data, page_count: 1, title: str_to_string(title) };
        }
        proof {
            if per_page == 1 {
                assert(n % per_page == 0);
            } else {
                assert(n / per_page < n) by (nonlinear_arith)
                    requires
                        per_page >= 2,
                        n > 0,
                ;
            }
        }
        let page_count = (n / per_page) + if n % per_page > 0 {
            1
        } else {
            0
        };
        let ghost q = (n / per_page) as int;
        let ghost r = (n % per_page) as int;
        proof {
            vstd::arithmetic::div_mod::lemma_fundamental_div_mod(n as int, per_page as int);
            assert(n == q * per_page + r) by (nonlinear_arith)
                requires
                    n == per_page * q + r,
            ;
        }
        let mut page_data: Vec<PaginationPage> = Vec::new();
        let mut k: usize = 0;
        while k < page_count
            invariant
                per_page > 0,
                n == entries@.len(),
                n > 0,
                per_page == capped_per_page(entries_per_page as nat),
                page_count == q + if r > 0 {
                    1int
                } else {
                    0int
                },
                n == q * per_page + r,
                0 <= r < per_page,
                k <= page_count,
                page_data@.len() == k,
                forall|j: int|
                    0 <= j < k ==> (#[trigger] page_data@[j]).entries@ == page_slice(
                        entries@,
                        j,
                        per_page as int,
                    ) && page_data@[j].entries_per_page == per_page && page_data@[j].renderable()
                        && page_data@[j].page_number == j && page_data@[j].page_count
                        == page_count,
            decreases page_count - k,
        {
            proof {
                lemma_page_start(k as int, per_page as int, n as int, q, r);
            }
            let start = k * per_page;
            let end = if n - start > per_page {
                start + per_page
            } else {
                n
            };
            let mut chunk: Vec<PageEntry> = Vec::new();
            let mut i = start;
            while i < end
                invariant
                    start <= i <= end <= entries@.len(),
                    chunk@ == entries@.subrange(start as int, i as int),
                decreases end - i,
            {
                let e = entries[i].duplicate();
                chunk.push(e);
                i += 1;
                assert(chunk@ =~= entries@.subrange(start as int, i as int));
            }
            let page = PaginationPage {
                entries: chunk,
                page_number: k,
                page_count,
                entries_per_page: per_page,
            };
            assert(page.entries@ == page_slice(entries@, k as int, per_page as int));
            page_data.push(page);
            k += 1;
        }
        Paginator { page_data, page_count, title: str_to_string(title) }
    }

    /// The number of pages.
    pub fn get_page_count(&self) -> (c: usize)
        ensures
            c == self.page_count,
    {
        self.page_count
    }

    /// The number of the last page (pages are numbered from 0).
    pub fn get_last_page_number(&self) -> (last: usize)
        requires
            self.page_count >= 1,
        ensures
            last == self.page_count - 1,
    {
        self.page_count - 1
    }

    /// The page with the given number, if it exists.
    pub fn get_page(&self, page: usize) -> (p: Option<&PaginationPage>)
        ensures
            page < self.page_data@.len() ==> p == Some(&self.page_data@[page as int]),
            page >= self.page_data@.len() ==> p is None,
    {
        if page < self.page_data.len() {
            Some(&self.page_data[page])
        } else {
            None
        }
    }

    /// The page reached by moving `change_by` pages from `current_page`,
    /// wrapping around at either end.
    pub fn update_page_number(&self, current_page: usize, change_by: isize) -> (p: usize)
        requires
            change_by < 0 && -change_by > current_page ==> -change_by - current_page
                <= self.page_count,
            change_by >= 0 ==> current_page + change_by <= usize::MAX,
        ensures
            p == moved_page(self.page_count as int, current_page as int, change_by as int),
    {
        let magnitude: usize = if change_by < 0 {
            (-(change_by as i128)) as usize
        } else {
            change_by as usize
        };
        if change_by < 0 {
            if magnitude > current_page {
                self.page_count - (magnitude - current_page)
            } else {
                current_page - magnitude
            }
        } else if current_page + magnitude >= self.page_count {
            (current_page + magnitude) - self.page_count
        } else {
            current_page + magnitude
        }
    }

    /// The page shown first: the 1-based `page` asked for (page 1 when none is
    /// asked for), or the last page when that page does not exist.
    pub fn initial_page(&self, page: Option<usize>) -> (p: usize)
        requires
            self.page_count >= 1,
            self.page_data@.len() == self.page_count,
        ensures
            ({
                let asked: int = match page {
                    Some(n) => if n >= 1 {
                        n - 1
                    } else {
                        0
                    },
                    None => 0,
                };
                p == if asked < self.page_count {
                    asked
                } else {
                    self.page_count - 1
                }
            }),
    {
        let asked = match page {
            Some(n) => n.saturating_sub(1),
            None => 0,
        };
        if asked < self.page_data.len() {
            asked
        } else {
            self.page_count - 1
        }
    }

    /// The embed texts for a page: the page's entries, a notice that the list is
    /// empty, or a notice that the page does not exist.
    pub fn create_page_embed(&self, page: usize, page_type: PageType) -> (e: PageEmbed)
        requires
            self.well_formed(),
        ensures
            e.title@ == self.title@,
            page >= self.page_data@.len() ==> e.description@ == "This page does not exist."@
                && e.fields@.len() == 0 && e.footer is None,
            page < self.page_data@.len() && self.page_data@[page as int].entries@.len() == 0
                ==> e.description@ == "No entries have been added yet."@ && e.fields@.len() == 0
                && e.footer is None,
            page < self.page_data@.len() && self.page_data@[page as int].entries@.len() > 0
                ==> ({
                let pg = self.page_data@[page as int];
                &&& e.description@ == "Showing entries "@ + nat_decimal(
                    (pg.page_number * pg.entries_per_page + 1) as nat,
                ) + " to "@ + nat_decimal(
                    (pg.page_number * pg.entries_per_page + pg.entries.len()) as nat,
                ) + "."@
                &&& e.fields@.len() == pg.entries@.len()
                &&& forall|i: int|
                    0 <= i < pg.entries@.len() ==> (#[trigger] e.fields@[i]).0@ == entry_title(
                        pg.entries@[i],
                        page_type,
                    ) && e.fields@[i].1@ == pg.entries@[i].body@
                &&& e.footer matches Some(f) && f@ == "Page "@ + nat_decimal(
                    (pg.page_number + 1) as nat,
                ) + " of "@ + nat_decimal(pg.page_count as nat)
            }),
    {
        match self.get_page(page) {
            Some(p) => {
                if p.is_empty() {
                    PageEmbed {
                        title: self.title.clone(),
                        description: str_to_string("No entries have been added yet."),
                        fields: Vec::new(),
                        footer: None,
                    }
                } else {
                    p.to_embed(self.title.as_str(), page_type)
                }
            },
            None => PageEmbed {
                title: self.title.clone(),
                description: str_to_string("This page does not exist."),
                fields: Vec::new(),
                footer: None,
            },
        }
    }
}

/// The page reached from `current_page` by `change_by` pages among
/// `page_count`, wrapping around at either end.
pub open spec fn moved_page(page_count: int, current_page: int, change_by: int) -> int {
    if change_by < 0 {
        if -change_by > current_page {
            page_count - (-change_by - current_page)
        } else {
            current_page + change_by
        }
    } else if current_page + change_by >= page_count {
        current_page + change_by - page_count
    } else {
        current_page + change_by
    }
}

/// Moving by `change_by` pages and then back by as many returns to the
/// starting page, across the wrap-around too (Next then Previous gives back
/// the page one started on), when the move is at most one full round.
pub proof fn lemma_page_round_trip(page_count: int, current_page: int, change_by: int)
    requires
        0 <= current_page < page_count,
        -page_count <= change_by <= page_count,
    ensures
        0 <= moved_page(page_count, current_page, change_by) < page_count,
        moved_page(page_count, moved_page(page_count, current_page, change_by), -change_by) == current_page,
{
}

/// Moving by at most one full round of pages wraps around the list:
/// the page reached is `(current + change) mod page_count`.
pub proof fn lemma_page_navigation_wraps(
    page_count: int,
    current_page: int,
    change_by: int,
    reached: int,
)
    requires
        page_count >= 1,
        0 <= current_page < page_count,
        -page_count <= change_by <= page_count,
        reached == if change_by < 0 {
            if -change_by > current_page {
                page_count - (-change_by - current_page)
            } else {
                current_page + change_by
            }
        } else if current_page + change_by >= page_count {
            current_page + change_by - page_count
        } else {
            current_page + change_by
        },
    ensures
        reached == (current_page + change_by) % page_count,
        0 <= reached < page_count,
{
    let s = current_page + change_by;
    if s < 0 {
        vstd::arithmetic::div_mod::lemma_mod_add_multiples_vanish(s, page_count);
        vstd::arithmetic::div_mod::lemma_small_mod((s + page_count) as nat, page_count as nat);
    } else if s >= page_count {
        vstd::arithmetic::div_mod::lemma_mod_sub_multiples_vanish(s, page_count);
        vstd::arithmetic::div_mod::lemma_small_mod((s - page_count) as nat, page_count as nat);
    } else {
        vstd::arithmetic::div_mod::lemma_small_mod(s as nat, page_count as nat);
    }
}

/// A press of a navigation button.
#[derive(Debug, Clone, Copy, PartialEq, Eq, Structural)]
pub enum PageMove {
    Previous,
    Next,
}

/// The move a pressed button asks for; `None` for an unrelated button.
pub fn page_button(custom_id: &str, ctx_id: u64) -> (m: Option<PageMove>)
    ensures
        m == (if custom_id@ == button_id(ctx_id, "next"@) {
            Some(PageMove::Next)
        } else if custom_id@ == button_id(ctx_id, "prev"@) {
            Some(PageMove::Previous)
        } else {
            None
        }),
{
    let id = str_to_string(custom_id);
    let mut next = String::new();
    push_u64(&mut next, ctx_id);
    push_str(&mut next, "next");
    let mut prev = String::new();
    push_u64(&mut prev, ctx_id);
    push_str(&mut prev, "prev");
    if id == next {
        Some(PageMove::Next)
    } else if id == prev {
        Some(PageMove::Previous)
    } else {
        None
    }
}

impl Paginator {
    /// Whether the navigation buttons are shown: only for more than one page.
    pub fn shows_navigation(&self) -> (b: bool)
        ensures
            b == (self.page_count > 1),
    {
        self.page_count > 1
    }

    /// The page shown after a navigation button press, wrapping around.
    pub fn navigate(&self, current_page: usize, page_move: PageMove) -> (p: usize)
        requires
            current_page < self.page_count,
        ensures
            p == match page_move {
                PageMove::Next => if current_page + 1 >= self.page_count {
                    0
                } else {
                    current_page + 1
                },
                PageMove::Previous => if current_page == 0 {
                    self.page_count - 1
                } else {
                    current_page - 1
                },
            },
    {
        match page_move {
            PageMove::Next => self.update_page_number(current_page, 1),
            PageMove::Previous => self.update_page_number(current_page, -1),
        }
    }
}

} // verus!
