//! Named homes: for each player, a map from home name to location.
//! Names are case-sensitive and unique per player; any string is accepted
//! as a name.
use vstd::prelude::*;
use std::collections::HashMap;
use crate::error::ErrorKind;
use crate::location::Location;
use crate::player::PlayerId;

verus! {

broadcast use vstd::std_specs::hash::group_hash_axioms;

/// The homes of one player, as a map from name to location.
pub type Homes = Map<Seq<char>, Location>;

/// The homes of `player` in a registry whose state is `reg`; a player
/// never seen has none.
pub open spec fn homes_of(reg: Map<u128, Homes>, player: u128) -> Homes {
    if reg.contains_key(player) {
        reg[player]
    } else {
        Map::empty()
    }
}

/// Why a rename from `from` to `to` is refused, if it is: the names are the
/// same, `from` does not exist, or `to` is taken.
pub open spec fn rename_error(homes: Homes, from: Seq<char>, to: Seq<char>) -> Option<ErrorKind> {
    if from == to {
        Some(ErrorKind::SameName)
    } else if !homes.contains_key(from) {
        Some(ErrorKind::NotFound)
    } else if homes.contains_key(to) {
        Some(ErrorKind::AlreadyExists)
    } else {
        None
    }
}

/// The homes after a rename from `from` to `to` that is not refused: the
/// location moves to the new name and the old name is gone.
pub open spec fn renamed(homes: Homes, from: Seq<char>, to: Seq<char>) -> Homes {
    homes.remove(from).insert(to, homes[from])
}

struct Home {
    name: String,
    location: Location,
}

/// One player's homes, kept as a list with distinct names.
struct HomeBook {
    entries: Vec<Home>,
    model: Ghost<Homes>,
}

impl HomeBook {
    spec fn view(&self) -> Homes {
        self.model@
    }

    spec fn wf(&self) -> bool {
        &&& forall|i: int|
            0 <= i < self.entries@.len() ==> {
                &&& self.model@.contains_key(#[trigger] self.entries@[i].name@)
                &&& self.model@[self.entries@[i].name@] == self.entries@[i].location
            }
        &&& forall|n: Seq<char>|
            #[trigger] self.model@.contains_key(n) ==> exists|i: int|
                0 <= i < self.entries@.len() && #[trigger] self.entries@[i].name@ == n
        &&& forall|i: int, j: int|
            0 <= i < self.entries@.len() && 0 <= j < self.entries@.len() && i != j
                ==> #[trigger] self.entries@[i].name@ != #[trigger] self.entries@[j].name@
    }

    fn new() -> (r: HomeBook)
        ensures
            r.wf(),
            r.view() == Homes::empty(),
    {
        HomeBook { entries: Vec::new(), model: Ghost(Map::empty()) }
    }

    /// Index of the entry named `name`.
    fn find(&self, name: &String) -> (r: Option<usize>)
        requires
            self.wf(),
        ensures
            match r {
                Some(i) => {
                    &&& i < self.entries@.len()
                    &&& self.entries@[i as int].name@ == name@
                    &&& self.view().contains_key(name@)
                    &&& self.view()[name@] == self.entries@[i as int].location
                },
                None => !self.view().contains_key(name@),
            },
    {
        let mut i: usize = 0;
        while i < self.entries.len()
            invariant
                self.wf(),
                i <= self.entries@.len(),
                forall|j: int| 0 <= j < i ==> self.entries@[j].name@ != name@,
            decreases self.entries@.len() - i,
        {
            if self.entries[i].name == *name {
                assert(self.entries@[i as int].name@ == name@);
                return Some(i);
            }
            i = i + 1;
        }
        None
    }

    fn is_empty(&self) -> (r: bool)
        requires
            self.wf(),
        ensures
            r == (self.view().dom() == Set::<Seq<char>>::empty()),
    {
        if self.entries.len() == 0 {
            assert(self.view().dom() =~= Set::<Seq<char>>::empty());
            true
        } else {
            assert(self.view().dom().contains(self.entries@[0].name@));
            false
        }
    }

    fn get(&self, name: &String) -> (r: Option<Location>)
        requires
            self.wf(),
        ensures
            r == (if self.view().contains_key(name@) {
                Some(self.view()[name@])
            } else {
                None
            }),
    {
        match self.find(name) {
            Some(i) => Some(self.entries[i].location.duplicate()),
            None => None,
        }
    }

    fn set(&mut self, name: String, location: Location)
        requires
            old(self).wf(),
        ensures
            final(self).wf(),
            final(self).view() == old(self).view().insert(name@, location),
    {
        let ghost key = name@;
        let ghost before = self.entries@;
        let ghost updated = self.model@.insert(key, location);
        match self.find(&name) {
            Some(i) => {
                self.entries.set(i, Home { name, location });
                self.model = Ghost(updated);
                assert forall|n: Seq<char>| #[trigger] self.model@.contains_key(n) implies exists|k: int|
                    0 <= k < self.entries@.len() && #[trigger] self.entries@[k].name@ == n by {
                    if n == key {
                        assert(self.entries@[i as int].name@ == n);
                    } else {
                        let k = choose|k: int| 0 <= k < before.len() && #[trigger] before[k].name@ == n;
                        assert(self.entries@[k].name@ == n);
                    }
                }
            },
            None => {
                self.entries.push(Home { name, location });
                self.model = Ghost(updated);
                assert forall|n: Seq<char>| #[trigger] self.model@.contains_key(n) implies exists|k: int|
                    0 <= k < self.entries@.len() && #[trigger] self.entries@[k].name@ == n by {
                    if n == key {
                        assert(self.entries@[before.len() as int].name@ == n);
                    } else {
                        let k = choose|k: int| 0 <= k < before.len() && #[trigger] before[k].name@ == n;
                        assert(self.entries@[k].name@ == n);
                    }
                }
            },
        }
    }
    fn remove(&mut self, name: &String) -> (r: bool)
        requires
            old(self).wf(),
        ensures
            final(self).wf(),
            r == old(self).view().contains_key(name@),
            final(self).view() == old(self).view().remove(name@),
    {
        let ghost before = self.entries@;
        match self.find(name) {
            Some(i) => {
                let ghost last = (before.len() - 1) as int;
                self.entries.swap_remove(i);
                self.model = Ghost(self.model@.remove(name@));
                assert forall|n: Seq<char>| #[trigger] self.model@.contains_key(n) implies exists|k: int|
                    0 <= k < self.entries@.len() && #[trigger] self.entries@[k].name@ == n by {
                    let k = choose|k: int| 0 <= k < before.len() && #[trigger] before[k].name@ == n;
                    if k == last {
                        assert(self.entries@[i as int].name@ == n);
                    } else {
                        assert(self.entries@[k].name@ == n);
                    }
                }
                true
            },
            None => {
                assert(self.model@.remove(name@) =~= self.model@);
                false
            },
        }
    }

    fn rename(&mut self, from: &String, to: String) -> (r: Result<(), ErrorKind>)
        requires
            old(self).wf(),
        ensures
            final(self).wf(),
            match rename_error(old(self).view(), from@, to@) {
                Some(e) => r == Err::<(), ErrorKind>(e) && final(self).view() == old(self).view(),
                None => r == Ok::<(), ErrorKind>(()) && final(self).view() == renamed(
                    old(self).view(),
                    from@,
                    to@,
                ),
            },
    {
        if *from == to {
            return Err(ErrorKind::SameName);
        }
        let i = match self.find(from) {
            Some(i) => i,
            None => {
                return Err(ErrorKind::NotFound);
            },
        };
        if self.find(&to).is_some() {
            return Err(ErrorKind::AlreadyExists);
        }
        let ghost before = self.entries@;
        let ghost key = to@;
        let ghost updated = renamed(self.model@, from@, to@);
        let location = self.entries[i].location.duplicate();
        self.entries.set(i, Home { name: to, location });
        self.model = Ghost(updated);
        assert forall|n: Seq<char>| #[trigger] self.model@.contains_key(n) implies exists|k: int|
            0 <= k < self.entries@.len() && #[trigger] self.entries@[k].name@ == n by {
            if n == key {
                assert(self.entries@[i as int].name@ == n);
            } else {
                let k = choose|k: int| 0 <= k < before.len() && #[trigger] before[k].name@ == n;
                assert(self.entries@[k].name@ == n);
            }
        }
        Ok(())
    }
}


/// Every player's homes.
pub struct HomeRegistry {
    books: HashMap<u128, HomeBook>,
}

impl View for HomeRegistry {
    type V = Map<u128, Homes>;

    closed spec fn view(&self) -> Map<u128, Homes> {
        Map::new(|p: u128| self.books@.contains_key(p), |p: u128| self.books@[p].view())
    }
}

impl HomeRegistry {
    /// Each player's list holds distinct names and matches the map.
    pub closed spec fn wf(&self) -> bool {
        forall|p: u128| #[trigger] self.books@.contains_key(p) ==> self.books@[p].wf()
    }

    /// A registry with no homes.
    pub fn new() -> (r: HomeRegistry)
        ensures
            r.wf(),
            r@ == Map::<u128, Homes>::empty(),
    {
        let r = HomeRegistry { books: HashMap::new() };
        assert(r@ =~= Map::<u128, Homes>::empty());
        r
    }

    /// Saves `location` as `player`'s home `name`, replacing a home of the
    /// same name. Refused, with no change, when the location is not valid.
    pub fn set(&mut self, player: PlayerId, name: String, location: Location) -> (r: Result<
        (),
        ErrorKind,
    >)
        requires
            old(self).wf(),
        ensures
            final(self).wf(),
            location.valid() ==> r == Ok::<(), ErrorKind>(()) && final(self)@ == old(self)@.insert(
                player.0,
                homes_of(old(self)@, player.0).insert(name@, location),
            ),
            !location.valid() ==> r == Err::<(), ErrorKind>(ErrorKind::InvalidLocation)
                && final(self)@ == old(self)@,
    {
        if !location.is_valid() {
            return Err(ErrorKind::InvalidLocation);
        }
        let ghost before = self@;
        let mut book = match self.books.remove(&player.0) {
            Some(b) => b,
            None => HomeBook::new(),
        };
        book.set(name, location);
        self.books.insert(player.0, book);
        assert(self@ =~= before.insert(player.0, homes_of(before, player.0).insert(name@, location)));
        Ok(())
    }

    /// The location of `player`'s home `name`, if there is one.
    pub fn get(&self, player: PlayerId, name: &String) -> (r: Option<Location>)
        requires
            self.wf(),
        ensures
            r == (if homes_of(self@, player.0).contains_key(name@) {
                Some(homes_of(self@, player.0)[name@])
            } else {
                None
            }),
    {
        match self.books.get(&player.0) {
            Some(book) => book.get(name),
            None => None,
        }
    }

    /// Whether `player` has at least one home.
    pub fn has_homes(&self, player: PlayerId) -> (r: bool)
        requires
            self.wf(),
        ensures
            r == (homes_of(self@, player.0).dom() != Set::<Seq<char>>::empty()),
    {
        match self.books.get(&player.0) {
            Some(book) => !book.is_empty(),
            None => {
                assert(Map::<Seq<char>, Location>::empty().dom() =~= Set::<Seq<char>>::empty());
                false
            },
        }
    }

    /// Deletes `player`'s home `name`; returns whether there was one.
    pub fn delete(&mut self, player: PlayerId, name: &String) -> (r: bool)
        requires
            old(self).wf(),
        ensures
            final(self).wf(),
            r == homes_of(old(self)@, player.0).contains_key(name@),
            r ==> final(self)@ == old(self)@.insert(
                player.0,
                homes_of(old(self)@, player.0).remove(name@),
            ),
            !r ==> final(self)@ == old(self)@,
    {
        let ghost before = self@;
        let present = match self.books.get(&player.0) {
            Some(book) => book.find(name).is_some(),
            None => false,
        };
        if !present {
            return false;
        }
        let mut book = match self.books.remove(&player.0) {
            Some(b) => b,
            None => HomeBook::new(),
        };
        book.remove(name);
        self.books.insert(player.0, book);
        assert(self@ =~= before.insert(player.0, homes_of(before, player.0).remove(name@)));
        true
    }

    /// Renames `player`'s home `from` to `to` in one step. Refused, with no
    /// change, when the names are equal, when `from` does not exist, or when
    /// `to` already does; the home under `from` is then kept as it was.
    pub fn rename(&mut self, player: PlayerId, from: &String, to: String) -> (r: Result<
        (),
        ErrorKind,
    >)
        requires
            old(self).wf(),
        ensures
            final(self).wf(),
            match rename_error(homes_of(old(self)@, player.0), from@, to@) {
                Some(e) => r == Err::<(), ErrorKind>(e) && final(self)@ == old(self)@,
                None => r == Ok::<(), ErrorKind>(()) && final(self)@ == old(self)@.insert(
                    player.0,
                    renamed(homes_of(old(self)@, player.0), from@, to@),
                ),
            },
    {
        let ghost before = self@;
        if *from == to {
            return Err(ErrorKind::SameName);
        }
        let known = match self.books.get(&player.0) {
            Some(book) => book.find(from).is_some(),
            None => false,
        };
        if !known {
            return Err(ErrorKind::NotFound);
        }
        let mut book = match self.books.remove(&player.0) {
            Some(b) => b,
            None => HomeBook::new(),
        };
        let r = book.rename(from, to);
        self.books.insert(player.0, book);
        match r {
            Ok(()) => {
                assert(self@ =~= before.insert(
                    player.0,
                    renamed(homes_of(before, player.0), from@, to@),
                ));
            },
            Err(_) => {
                assert(self@ =~= before);
            },
        }
        r
    }
}

/// With homes under both `a` and `b`, renaming `a` to `b` is refused as a
/// collision and both homes keep their locations.
pub proof fn lemma_rename_collision_keeps_both(homes: Homes, a: Seq<char>, b: Seq<char>)
    requires
        homes.contains_key(a),
        homes.contains_key(b),
        a != b,
    ensures
        rename_error(homes, a, b) == Some(ErrorKind::AlreadyExists),
{
}

} // verus!
