//! The option list: add, remove by selection, and pick at random.
use crate::random::random_index;
use vstd::prelude::*;

verus! {

/// Why a pick could not be made.
#[derive(Clone, Copy, Debug, PartialEq, Eq, Structural)]
pub enum PickError {
    /// The list holds no option to pick from.
    EmptyList,
}

impl PickError {
    /// The title under which the error is shown to the user.
    pub fn title(&self) -> (r: String)
        ensures
            r@ == "Error"@,
    {
        "Error".to_owned()
    }

    /// The text shown to the user for this error.
    pub fn message(&self) -> (r: String)
        ensures
            r@ == "0 options in the list"@,
    {
        "0 options in the list".to_owned()
    }
}

/// An insertion-ordered list of options; duplicates and empty strings are allowed.
pub struct OptionList {
    items: Vec<String>,
}

impl View for OptionList {
    type V = Seq<Seq<char>>;

    closed spec fn view(&self) -> Seq<Seq<char>> {
        self.items@.map_values(|s: String| s@)
    }
}

impl Default for OptionList {
    fn default() -> (r: OptionList)
        ensures
            r@ == Seq::<Seq<char>>::empty(),
    {
        OptionList::new()
    }
}

impl OptionList {
    /// An empty list.
    pub fn new() -> (r: OptionList)
        ensures
            r@ == Seq::<Seq<char>>::empty(),
    {
        let r = OptionList { items: Vec::new() };
        assert(r@ =~= Seq::<Seq<char>>::empty());
        r
    }

    /// Appends `text` as the new last option, whatever it holds.
    pub fn add(&mut self, text: String)
        ensures
            final(self)@ == old(self)@.push(text@),
    {
        self.items.push(text);
        assert(self@ =~= old(self)@.push(text@));
    }

    /// Deletes the selected option, moving the later ones down by one.
    /// No selection, or a selection past the end, leaves the list as it was.
    pub fn remove(&mut self, selection: Option<usize>)
        ensures
            match selection {
                Some(i) => if i < old(self)@.len() {
                    &&& final(self)@ == old(self)@.remove(i as int)
                    &&& final(self)@.len() == old(self)@.len() - 1
                    &&& forall|j: int| 0 <= j < i ==> #[trigger] final(self)@[j] == old(self)@[j]
                    &&& forall|j: int|
                        i <= j < final(self)@.len() ==> #[trigger] final(self)@[j] == old(self)@[j
                            + 1]
                } else {
                    final(self)@ == old(self)@
                },
                None => final(self)@ == old(self)@,
            },
    {
        if let Some(i) = selection {
            if i < self.items.len() {
                self.items.remove(i);
                assert(self@ =~= old(self)@.remove(i as int));
            }
        }
    }

    /// How many options the list holds.
    pub fn len(&self) -> (r: usize)
        ensures
            r == self@.len(),
    {
        self.items.len()
    }

    /// Whether the list holds no option.
    pub fn is_empty(&self) -> (r: bool)
        ensures
            r == (self@.len() == 0),
    {
        self.items.len() == 0
    }

    /// The option at `index`, if there is one.
    pub fn get(&self, index: usize) -> (r: Option<String>)
        ensures
            index < self@.len() ==> r is Some && r->Some_0@ == self@[index as int],
            index >= self@.len() ==> r is None,
    {
        if index < self.items.len() {
            Some(self.items[index].clone())
        } else {
            None
        }
    }

    /// The pick for a given draw: the option at `index`, or the empty-list
    /// error when there is nothing to pick from.
    pub fn pick_at(&self, index: usize) -> (r: Result<String, PickError>)
        requires
            self@.len() == 0 || index < self@.len(),
        ensures
            self@.len() == 0 ==> r == Err::<String, PickError>(PickError::EmptyList),
            self@.len() > 0 ==> r is Ok && r->Ok_0@ == self@[index as int],
    {
        if self.items.len() == 0 {
            Err(PickError::EmptyList)
        } else {
            Ok(self.items[index].clone())
        }
    }

    /// Draws an index uniformly from `[0, len)` and returns the option there;
    /// on an empty list, the empty-list error. The list is left unchanged.
    pub fn pick_random(&self) -> (r: Result<String, PickError>)
        ensures
            self@.len() == 0 <==> r is Err,
            r is Err ==> r == Err::<String, PickError>(PickError::EmptyList),
            r is Ok ==> exists|i: int| 0 <= i < self@.len() && r->Ok_0@ == #[trigger] self@[i],
    {
        if self.items.len() == 0 {
            return Err(PickError::EmptyList);
        }
        let index: usize = random_index(self.items.len());
        let r = self.pick_at(index);
        assert(r->Ok_0@ == self@[index as int]);
        r
    }
}

/// The contents of a list holding `start` after `OptionList::add` was called
/// with each of `texts`, in order.
pub open spec fn after_adds(start: Seq<Seq<char>>, texts: Seq<Seq<char>>) -> Seq<Seq<char>>
    decreases texts.len(),
{
    if texts.len() == 0 {
        start
    } else {
        after_adds(start, texts.drop_last()).push(texts.last())
    }
}

/// Successive adds append in order: the result is `start` followed by `texts`.
pub proof fn after_adds_appends(start: Seq<Seq<char>>, texts: Seq<Seq<char>>)
    ensures
        after_adds(start, texts) == start + texts,
    decreases texts.len(),
{
    if texts.len() > 0 {
        after_adds_appends(start, texts.drop_last());
        assert(start + texts =~= (start + texts.drop_last()).push(texts.last()));
    }
}

/// Adding N strings to an empty list leaves a list of length N whose option
/// at position `i` is the string given to the `i`-th add.
pub proof fn adds_keep_insertion_order(texts: Seq<Seq<char>>)
    ensures
        after_adds(Seq::empty(), texts).len() == texts.len(),
        forall|i: int| 0 <= i < texts.len() ==> #[trigger] after_adds(Seq::empty(), texts)[i] == texts[i],
{
    after_adds_appends(Seq::empty(), texts);
    assert(Seq::<Seq<char>>::empty() + texts =~= texts);
}

} // verus!
