//! The single text value that the bridge shares between its callers.

use vstd::prelude::*;

verus! {

/// One text value, empty until the first save. Every save replaces the whole
/// value; nothing of an earlier value is kept.
///
/// A save needs the blob for itself (`&mut self`), so no reader and no other
/// writer can see it half done. Callers that share a blob between threads put
/// it behind a lock and hold the lock for the one call.
pub struct SharedBlob {
    text: String,
}

impl View for SharedBlob {
    type V = Seq<char>;

    closed spec fn view(&self) -> Seq<char> {
        self.text@
    }
}

/// The text that is stored once `text` has been saved over `stored`.
pub open spec fn saved(stored: Seq<char>, text: Seq<char>) -> Seq<char> {
    text
}

/// The text that is stored once the texts of `saves` have been saved, one
/// after the other, into a blob that held `initial`.
pub open spec fn replay(initial: Seq<char>, saves: Seq<Seq<char>>) -> Seq<char>
    decreases saves.len(),
{
    if saves.len() == 0 {
        initial
    } else {
        saved(replay(initial, saves.drop_last()), saves.last())
    }
}

impl SharedBlob {
    /// A blob that holds the empty text.
    pub fn new() -> (blob: SharedBlob)
        ensures
            blob@ == Seq::<char>::empty(),
    {
        SharedBlob { text: String::new() }
    }

    /// Replaces the stored text by `text`.
    pub fn save(&mut self, text: String)
        ensures
            final(self)@ == saved(old(self)@, text@),
    {
        self.text = text;
    }

    /// A copy of the stored text.
    pub fn get(&self) -> (text: String)
        ensures
            text@ == self@,
    {
        self.text.clone()
    }
}

/// The last write wins: after any saves, the stored text is exactly the text
/// of the last one.
pub proof fn lemma_last_write_wins(initial: Seq<char>, saves: Seq<Seq<char>>)
    requires
        saves.len() > 0,
    ensures
        replay(initial, saves) == saves.last(),
{
}

/// Without a save the stored text is the one that the blob began with.
pub proof fn lemma_no_save_no_change(initial: Seq<char>)
    ensures
        replay(initial, Seq::empty()) == initial,
{
}

/// Saves land whole: in whatever order saves are carried out, and however
/// many of them have been carried out so far, the stored text is the initial
/// text or the complete text of one of those saves, never a mixture.
pub proof fn lemma_saves_land_whole(initial: Seq<char>, saves: Seq<Seq<char>>, done: int)
    requires
        0 <= done <= saves.len(),
    ensures
        done == 0 ==> replay(initial, saves.take(done)) == initial,
        done > 0 ==> replay(initial, saves.take(done)) == saves[done - 1],
{
    if done > 0 {
        lemma_last_write_wins(initial, saves.take(done));
    }
}

} // verus!
