//! Named flags that record what has happened in the game.

use vstd::prelude::*;
use vstd::hash_map::StringHashMap;

verus! {

/// A set of named flags. A flag that was never set is not set: there is no
/// third state.
pub struct Flags {
    flags: StringHashMap<bool>,
}

impl View for Flags {
    /// The names of the flags that are set.
    type V = Set<Seq<char>>;

    closed spec fn view(&self) -> Set<Seq<char>> {
        Set::new(|name: Seq<char>| self.flags@.contains_key(name) && self.flags@[name])
    }
}

impl Flags {
    /// No flag is set.
    pub fn new() -> (flags: Flags)
        ensures
            flags@ == Set::<Seq<char>>::empty(),
    {
        Flags { flags: StringHashMap::new() }
    }

    /// Whether the flag is set.
    pub fn is_set(&self, flag: &str) -> (set: bool)
        ensures
            set == self@.contains(flag@),
    {
        match self.flags.get(flag) {
            Some(value) => *value,
            None => false,
        }
    }

    /// Sets the flag.
    pub fn set(&mut self, flag: &str)
        ensures
            final(self)@ == old(self)@.insert(flag@),
    {
        self.set_as(flag, true);
    }

    /// Sets the flag if `val` is true, clears it if not.
    pub fn set_as(&mut self, flag: &str, val: bool)
        ensures
            final(self)@ == if val {
                old(self)@.insert(flag@)
            } else {
                old(self)@.remove(flag@)
            },
    {
        self.flags.insert(flag.to_owned(), val);
        assert(self@ =~= if val {
            old(self)@.insert(flag@)
        } else {
            old(self)@.remove(flag@)
        });
    }

    /// The message to show when the flag stands as `val`: `msg` if it does, nothing if not.
    pub fn message_if(&self, flag: &str, val: bool, msg: &str) -> (shown: Option<String>)
        ensures
            shown.is_some() == (self@.contains(flag@) == val),
            shown matches Some(text) ==> text@ == msg@,
    {
        if self.is_set(flag) == val {
            Some(msg.to_owned())
        } else {
            None
        }
    }
}

/// What setting and asking come to: a flag is not set before it is set for
/// the first time; it is set once it was set; setting it again changes
/// nothing; and setting or clearing another flag leaves it as it is.
pub proof fn lemma_flag_laws(flags: Set<Seq<char>>, name: Seq<char>, other: Seq<char>)
    ensures
        !Set::<Seq<char>>::empty().contains(name),
        flags.insert(name).contains(name),
        flags.insert(name).insert(name) == flags.insert(name),
        !flags.remove(name).contains(name),
        other != name ==> flags.insert(other).contains(name) == flags.contains(name),
        other != name ==> flags.remove(other).contains(name) == flags.contains(name),
{
}

} // verus!
