//! Reading a listing page: the items of its entries in order, and the
//! cursor from which the next page continues.

use vstd::prelude::*;
use crate::data::{
    EntryModel, ItemModel, PageModel, RedditItem, RedditListingItem, RedditListings,
};
use crate::extract::{items_given, link_kind, normalize_probed, probes_of, Probes, ProbesModel};

verus! {

/// The answers of searches that found nothing.
pub open spec fn no_probes() -> ProbesModel {
    ProbesModel { link_token: None, thumbnail_token: None, frame_src: None }
}

/// What the searches find in one entry: nothing where it carries nothing.
pub open spec fn entry_probes(e: EntryModel) -> ProbesModel {
    match e.data {
        Some(d) => probes_of(d),
        None => no_probes(),
    }
}

/// The items of one entry, given what the searches found in it: those of
/// what it carries, and none where it carries nothing.
pub open spec fn entry_items_given(e: EntryModel, p: ProbesModel) -> Seq<ItemModel> {
    match e.data {
        Some(d) => items_given(e.kind, d, p),
        None => Seq::empty(),
    }
}

/// The items of one entry.
pub open spec fn entry_items(e: EntryModel) -> Seq<ItemModel> {
    entry_items_given(e, entry_probes(e))
}

/// What the searches find in the entries of a page, entry by entry.
pub open spec fn page_probes(entries: Seq<EntryModel>) -> Seq<ProbesModel> {
    entries.map_values(|e: EntryModel| entry_probes(e))
}

/// The answers that belong to the entry at `i`: those at `i`, and none
/// where the answers do not reach so far.
pub open spec fn probes_at(probes: Seq<ProbesModel>, i: int) -> ProbesModel {
    if 0 <= i < probes.len() {
        probes[i]
    } else {
        no_probes()
    }
}

/// The items of each entry of a page, given what the searches found.
pub open spec fn items_by_entry(entries: Seq<EntryModel>, probes: Seq<ProbesModel>) -> Seq<
    Seq<ItemModel>,
> {
    Seq::new(entries.len(), |i: int| entry_items_given(entries[i], probes_at(probes, i)))
}

/// The items of the entries of a page, in the order of the entries, given
/// what the searches found.
pub open spec fn page_items_given(entries: Seq<EntryModel>, probes: Seq<ProbesModel>) -> Seq<
    ItemModel,
> {
    items_by_entry(entries, probes).flatten()
}

/// The items of the entries of a page, in the order of the entries.
pub open spec fn page_items(entries: Seq<EntryModel>) -> Seq<ItemModel> {
    page_items_given(entries, page_probes(entries))
}

/// The cursor of a page: the name of its last entry that carries anything,
/// whether or not that entry gave an item; empty where no entry does.
pub open spec fn page_cursor(entries: Seq<EntryModel>) -> Seq<char>
    decreases entries.len(),
{
    if entries.len() == 0 {
        Seq::empty()
    } else {
        match entries.last().data {
            Some(d) => d.name,
            None => page_cursor(entries.drop_last()),
        }
    }
}

/// What a page yields, given what the searches found in its entries:
/// nothing where it has no envelope, and nothing where its entries give
/// neither an item nor a cursor; else the items and the cursor.
pub open spec fn listing_given(page: PageModel, probes: Seq<ProbesModel>) -> Option<
    (Seq<ItemModel>, Seq<char>),
> {
    match page.entries {
        Some(entries) => if page_items_given(entries, probes).len() == 0 && page_cursor(
            entries,
        ).len() == 0 {
            None
        } else {
            Some((page_items_given(entries, probes), page_cursor(entries)))
        },
        None => None,
    }
}

/// What a page yields.
pub open spec fn listing(page: PageModel) -> Option<(Seq<ItemModel>, Seq<char>)> {
    match page.entries {
        Some(entries) => listing_given(page, page_probes(entries)),
        None => None,
    }
}

impl Probes {
    /// The answers of searches that found nothing.
    pub fn none() -> (out: Probes)
        ensures
            out.deep_view() == no_probes(),
    {
        Probes { link_token: None, thumbnail_token: None, frame_src: None }
    }
}

impl RedditListingItem {
    /// Runs the searches on this entry.
    pub fn probe(&self) -> (out: Probes)
        ensures
            out.deep_view() == entry_probes(self.deep_view()),
    {
        match &self.data {
            Some(data) => data.probe(),
            None => Probes::none(),
        }
    }

    /// The media items of this entry, given what the searches found in it.
    pub fn normalize_with(&self, probes: &Probes) -> (out: Vec<RedditItem>)
        ensures
            out.deep_view() == entry_items_given(self.deep_view(), probes.deep_view()),
    {
        match &self.data {
            Some(data) => normalize_probed(self.kind.as_str(), data, probes),
            None => {
                let none: Vec<RedditItem> = Vec::new();
                assert(none.deep_view() =~= Seq::<ItemModel>::empty());
                none
            },
        }
    }

    /// The media items of this entry.
    pub fn normalize(&self) -> (out: Vec<RedditItem>)
        ensures
            out.deep_view() == entry_items(self.deep_view()),
    {
        let probes = self.probe();
        self.normalize_with(&probes)
    }
}

impl RedditListings {
    /// Runs the searches on the entries of this page, entry by entry.
    pub fn probe(&self) -> (out: Vec<Probes>)
        ensures
            out.deep_view() == match self.deep_view().entries {
                Some(entries) => page_probes(entries),
                None => Seq::empty(),
            },
    {
        let mut probes: Vec<Probes> = Vec::new();
        let data = match &self.data {
            Some(data) => data,
            None => {
                assert(probes.deep_view() =~= Seq::<ProbesModel>::empty());
                return probes;
            },
        };
        let ghost entries = data.children.deep_view();
        let mut i: usize = 0;
        while i < data.children.len()
            invariant
                i <= data.children.len(),
                entries == data.children.deep_view(),
                probes.deep_view() =~= page_probes(entries).take(i as int),
            decreases data.children.len() - i,
        {
            let ghost before = probes.deep_view();
            let found = data.children[i].probe();
            assert(found.deep_view() == page_probes(entries)[i as int]) by {
                assert(entries[i as int] == data.children@[i as int].deep_view());
            }
            probes.push(found);
            assert(probes.deep_view() =~= before.push(found.deep_view()));
            i += 1;
        }
        assert(page_probes(entries).take(i as int) =~= page_probes(entries));
        probes
    }

    /// The media items of this page with its cursor, or nothing where the
    /// page is of no use, given what the searches found in its entries.
    /// Entries that `probes` does not reach are taken as searched in vain.
    pub fn get_items_with(self, probes: &Vec<Probes>) -> (out: Option<(Vec<RedditItem>, String)>)
        ensures
            match out {
                Some((items, cursor)) => listing_given(self.deep_view(), probes.deep_view())
                    == Some((items.deep_view(), cursor@)),
                None => listing_given(self.deep_view(), probes.deep_view()) is None,
            },
    {
        let data = match &self.data {
            Some(data) => data,
            None => {
                return None;
            },
        };
        let ghost entries = data.children.deep_view();
        let ghost found = probes.deep_view();
        let ghost by_entry = items_by_entry(entries, found);
        let none = Probes::none();
        let mut items: Vec<RedditItem> = Vec::new();
        let mut after = String::new();
        let mut i: usize = 0;
        assert(entries.take(0) =~= Seq::<EntryModel>::empty());
        assert(by_entry.take(0) =~= Seq::<Seq<ItemModel>>::empty());
        assert(items.deep_view() =~= by_entry.take(0).flatten());
        while i < data.children.len()
            invariant
                i <= data.children.len(),
                entries == data.children.deep_view(),
                found == probes.deep_view(),
                by_entry == items_by_entry(entries, found),
                none.deep_view() == no_probes(),
                items.deep_view() == by_entry.take(i as int).flatten(),
                after@ == page_cursor(entries.take(i as int)),
            decreases data.children.len() - i,
        {
            let child = &data.children[i];
            let ghost before = items.deep_view();
            proof {
                assert(entries[i as int] == child.deep_view());
                assert(entries.take(i + 1).drop_last() =~= entries.take(i as int));
                assert(by_entry.take(i + 1) =~= by_entry.take(i as int).push(by_entry[i as int]));
                by_entry.take(i as int).lemma_flatten_push(by_entry[i as int]);
            }
            if let Some(child_data) = &child.data {
                after = child_data.name.clone();
            }
            let mut more = if i < probes.len() {
                assert(found[i as int] == probes@[i as int].deep_view());
                child.normalize_with(&probes[i])
            } else {
                child.normalize_with(&none)
            };
            items.append(&mut more);
            assert(items.deep_view() =~= before + by_entry[i as int]);
            i += 1;
        }
        assert(entries.take(i as int) =~= entries);
        assert(by_entry.take(i as int) =~= by_entry);
        if items.is_empty() && after.as_str().is_empty() {
            None
        } else {
            Some((items, after))
        }
    }

    /// The media items of this page with its cursor, or nothing where the
    /// page is of no use.
    pub fn get_items(self) -> (out: Option<(Vec<RedditItem>, String)>)
        ensures
            match out {
                Some((items, cursor)) => listing(self.deep_view()) == Some(
                    (items.deep_view(), cursor@),
                ),
                None => listing(self.deep_view()) is None,
            },
    {
        let probes = self.probe();
        self.get_items_with(&probes)
    }
}

/// An entry whose kind is not the one that is read for media gives no
/// item, even where it carries media.
pub proof fn lemma_other_kind_entry_gives_nothing(e: EntryModel)
    requires
        e.kind != link_kind(),
    ensures
        entry_items(e) == Seq::<ItemModel>::empty(),
{
}

/// Normalizing the same entry twice gives the same items: what comes out is
/// decided by what the entry holds, and by nothing else.
pub proof fn lemma_normalizing_repeats(
    a: RedditListingItem,
    b: RedditListingItem,
    first: Vec<RedditItem>,
    second: Vec<RedditItem>,
)
    requires
        a.deep_view() == b.deep_view(),
        first.deep_view() == entry_items(a.deep_view()),
        second.deep_view() == entry_items(b.deep_view()),
    ensures
        first.deep_view() == second.deep_view(),
        first.len() == second.len(),
        forall|i: int| 0 <= i < first.len() ==> first[i].deep_view() == second[i].deep_view(),
{
    assert(first.deep_view().len() == first.len());
    assert(second.deep_view().len() == second.len());
    assert forall|i: int| 0 <= i < first.len() implies first[i].deep_view()
        == second[i].deep_view() by {
        assert(first.deep_view()[i] == first[i].deep_view());
        assert(second.deep_view()[i] == second[i].deep_view());
    }
}

/// The cursor of a page that is not empty is the name of one of its entries.
pub proof fn lemma_cursor_is_a_name(entries: Seq<EntryModel>)
    requires
        page_cursor(entries).len() > 0,
    ensures
        exists|i: int|
            0 <= i < entries.len() && (#[trigger] entries[i]).data is Some
                && entries[i].data->0.name == page_cursor(entries),
    decreases entries.len(),
{
    if entries.last().data is None {
        let front = entries.drop_last();
        lemma_cursor_is_a_name(front);
        let i = choose|i: int|
            0 <= i < front.len() && (#[trigger] front[i]).data is Some && front[i].data->0.name
                == page_cursor(front);
        assert(entries[i] == front[i]);
    } else {
        assert(entries[entries.len() - 1] == entries.last());
    }
}

/// A page that yields something without any item does so because one of
/// its entries gave its name as the cursor; a page whose envelope holds no
/// entry yields nothing, as does a page without envelope.
pub proof fn lemma_page_without_items(page: PageModel)
    ensures
        page.entries is None ==> listing(page) is None,
        page.entries is Some && page.entries->0.len() == 0 ==> listing(page) is None,
        match listing(page) {
            Some((items, cursor)) => items.len() == 0 ==> cursor.len() > 0 && exists|i: int|
                0 <= i < page.entries->0.len() && (#[trigger] page.entries->0[i]).data is Some
                    && page.entries->0[i].data->0.name == cursor,
            None => true,
        },
{
    if page.entries is Some {
        let entries = page.entries->0;
        if entries.len() == 0 {
            assert(page_items(entries) =~= Seq::<ItemModel>::empty());
        }
        if page_items(entries).len() == 0 && page_cursor(entries).len() > 0 {
            lemma_cursor_is_a_name(entries);
        }
    }
}

} // verus!
