//! Snapshots of the dictation text that `undo` returns to.
use vstd::prelude::*;
use crate::text::string_of;

verus! {

/// A stack of earlier versions of the dictation text.
#[derive(Debug, Clone)]
pub struct CommandHistory {
    snapshots: Vec<String>,
}

impl View for CommandHistory {
    type V = Seq<Seq<char>>;

    closed spec fn view(&self) -> Seq<Seq<char>> {
        self.snapshots@.map_values(|s: String| s@)
    }
}

impl Default for CommandHistory {
    fn default() -> (r: Self)
        ensures
            r@ == Seq::<Seq<char>>::empty(),
    {
        let r = CommandHistory { snapshots: Vec::new() };
        assert(r@ == Seq::<Seq<char>>::empty());
        r
    }
}

impl CommandHistory {
    /// Remembers `text` as the newest snapshot.
    pub fn push(&mut self, text: &str)
        ensures
            final(self)@ == old(self)@.push(text@),
    {
        let ghost before = self.snapshots@;
        self.snapshots.push(string_of(text));
        assert(self.snapshots@.map_values(|s: String| s@) == before.map_values(|s: String| s@).push(text@));
    }

    /// Removes and returns the newest snapshot, if any.
    pub fn undo(&mut self) -> (r: Option<String>)
        ensures
            old(self)@.len() > 0 ==> (r matches Some(s) && s@ == old(self)@.last()
                && final(self)@ == old(self)@.drop_last()),
            old(self)@.len() == 0 ==> r is None && final(self)@ == old(self)@,
    {
        let ghost before = self.snapshots@;
        let r = self.snapshots.pop();
        proof {
            if before.len() > 0 {
                assert(self.snapshots@.map_values(|s: String| s@) == before.map_values(|s: String| s@).drop_last());
            }
        }
        r
    }
}

/// Undo after push hands back the pushed text and leaves the history as it was.
pub proof fn law_undo_after_push(h: Seq<Seq<char>>, text: Seq<char>)
    ensures
        h.push(text).len() > 0,
        h.push(text).last() == text,
        h.push(text).drop_last() == h,
{
    assert(h.push(text).drop_last() == h);
}

} // verus!
