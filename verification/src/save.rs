//! Save-slot bookkeeping: which save a session is attached to, the
//! catalogue of existing saves, and the decision of where the next
//! save is written — a fresh numbered slot for an unnamed session
//! (up to the slot cap), the session's own slot otherwise, with the
//! catalogue's date stamp refreshed.
//!
//! Reading and writing the actual files, and the text encoding of the
//! saved data, belong to the surrounding program.

use vstd::prelude::*;
use vstd::string::StringExecFns;

verus! {

/// Most saves a catalogue holds.
pub const MAX_SAVE_GAMES: usize = 6;

/// Which save this session belongs to: a fresh unnamed game, or one
/// loaded from (and saved back to) a named slot.
#[derive(Debug, Default)]
pub enum SaveName {
    #[default]
    New,
    Load(String),
}

impl SaveName {
    /// The slot's file name, if the session has one.
    pub fn name(&self) -> (r: Option<String>)
        ensures
            match self {
                SaveName::Load(n) => r matches Some(s) && s@ == n@,
                SaveName::New => r is None,
            },
    {
        match self {
            SaveName::Load(n) => Some(n.clone()),
            SaveName::New => None,
        }
    }

    /// The slot's path under the save directory, if the session has
    /// one.
    pub fn path(&self) -> (r: Option<String>)
        ensures
            match self {
                SaveName::Load(n) => r matches Some(s) && s@ == "saves/"@ + n@,
                SaveName::New => r is None,
            },
    {
        match self {
            SaveName::Load(n) => Some(String::from_str("saves/").concat(n.as_str())),
            SaveName::New => None,
        }
    }
}

/// One catalogue row: when a slot was last written and its file name.
#[derive(Debug, Clone)]
pub struct SaveGameMetaData {
    pub date: String,
    pub name: String,
}

/// The catalogue of existing saves.
#[derive(Debug)]
pub struct SaveGames(pub Vec<SaveGameMetaData>);

/// Index of the first catalogue row with this file name; the length
/// of the catalogue when there is none.
pub open spec fn spec_first_named(s: Seq<SaveGameMetaData>, name: Seq<char>) -> int
    decreases s.len(),
{
    if s.len() == 0 {
        0
    } else if s[0].name@ == name {
        0
    } else {
        1 + spec_first_named(s.drop_first(), name)
    }
}

/// `spec_first_named` is the index of the first match: no earlier row
/// matches, and the row there (if within range) does.
proof fn lemma_first_named_at(s: Seq<SaveGameMetaData>, name: Seq<char>, i: int)
    requires
        0 <= i <= s.len(),
        forall|k: int| 0 <= k < i ==> s[k].name@ != name,
        i < s.len() ==> s[i].name@ == name,
    ensures
        spec_first_named(s, name) == i,
    decreases i,
{
    if i == 0 {
    } else {
        assert(s[0].name@ != name);
        lemma_first_named_at(s.drop_first(), name, i - 1);
    }
}

/// Appending a row moves the first match only if there was none.
proof fn lemma_first_named_push(s: Seq<SaveGameMetaData>, x: SaveGameMetaData, name: Seq<char>)
    ensures
        spec_first_named(s.push(x), name) == if spec_first_named(s, name) < s.len() {
            spec_first_named(s, name)
        } else if x.name@ == name {
            s.len() as int
        } else {
            (s.len() + 1) as int
        },
    decreases s.len(),
{
    if s.len() == 0 {
        assert(s.push(x)[0] == x);
        assert(s.push(x).drop_first() =~= Seq::<SaveGameMetaData>::empty());
        assert(spec_first_named(Seq::<SaveGameMetaData>::empty(), name) == 0);
    } else {
        assert(s.push(x)[0] == s[0]);
        assert(s.push(x).drop_first() =~= s.drop_first().push(x));
        lemma_first_named_push(s.drop_first(), x, name);
        lemma_first_named_nonneg(s.drop_first(), name);
        if s[0].name@ != name {
            assert(spec_first_named(s, name) == 1 + spec_first_named(s.drop_first(), name));
            assert(spec_first_named(s.push(x), name) == 1 + spec_first_named(
                s.drop_first().push(x),
                name,
            ));
        }
    }
}

/// The first-match index is never negative.
proof fn lemma_first_named_nonneg(s: Seq<SaveGameMetaData>, name: Seq<char>)
    ensures
        0 <= spec_first_named(s, name) <= s.len(),
    decreases s.len(),
{
    if s.len() > 0 && s[0].name@ != name {
        lemma_first_named_nonneg(s.drop_first(), name);
    }
}

impl SaveGames {
    /// Stamps `date` onto the first catalogue row named `name`, if
    /// any; every other row is untouched.
    pub fn write_date(&mut self, name: &String, date: &String)
        ensures
            final(self).0@.len() == old(self).0@.len(),
            ({
                let fi = spec_first_named(old(self).0@, name@);
                &&& forall|i: int|
                    0 <= i < old(self).0@.len() && i != fi ==> final(self).0@[i] == old(self).0@[i]
                &&& fi < old(self).0@.len() ==> final(self).0@[fi].date@ == date@ && final(self).0@[fi].name@ == old(self).0@[fi].name@
            }),
    {
        let n = self.0.len();
        let mut i: usize = 0;
        while i < n
            invariant
                n == self.0@.len(),
                i <= n,
                *self == *old(self),
                forall|k: int| 0 <= k < i ==> self.0@[k].name@ != name@,
            decreases n - i,
        {
            if self.0[i].name == *name {
                proof {
                    lemma_first_named_at(self.0@, name@, i as int);
                }
                self.0[i].date = date.clone();
                return ;
            }
            i = i + 1;
        }
        proof {
            lemma_first_named_at(self.0@, name@, n as int);
        }
    }
}

/// The file name of slot `k` (counting from 0).
pub open spec fn spec_slot_file(k: int) -> Seq<char> {
    if k == 0 {
        "save1.rson"@
    } else if k == 1 {
        "save2.rson"@
    } else if k == 2 {
        "save3.rson"@
    } else if k == 3 {
        "save4.rson"@
    } else if k == 4 {
        "save5.rson"@
    } else {
        "save6.rson"@
    }
}

/// Executable form of `spec_slot_file`.
pub fn slot_file(k: usize) -> (r: String)
    requires
        k < MAX_SAVE_GAMES,
    ensures
        r@ == spec_slot_file(k as int),
{
    match k {
        0 => String::from_str("save1.rson"),
        1 => String::from_str("save2.rson"),
        2 => String::from_str("save3.rson"),
        3 => String::from_str("save4.rson"),
        4 => String::from_str("save5.rson"),
        _ => String::from_str("save6.rson"),
    }
}

/// Decides where this save is written and keeps the catalogue in
/// step: a named session saves back to its own slot; an unnamed one
/// claims the next numbered slot — becoming a named session — as
/// long as the catalogue has room, and is refused (`None`, nothing
/// changed) when it is full. The first catalogue row of the chosen
/// slot gets the fresh `date` stamp.
pub fn plan_save(save_name: &mut SaveName, save_games: &mut SaveGames, date: &String) -> (r:
    Option<String>)
    ensures
        (*old(save_name)) matches SaveName::Load(n) ==> ({
            let fi = spec_first_named(old(save_games).0@, n@);
            &&& r matches Some(p) && p@ == "saves/"@ + n@
            &&& (*final(save_name)) matches SaveName::Load(n2) && n2@ == n@
            &&& final(save_games).0@.len() == old(save_games).0@.len()
            &&& forall|i: int|
                0 <= i < old(save_games).0@.len() && i != fi ==> final(save_games).0@[i] == old(save_games).0@[i]
            &&& fi < old(save_games).0@.len() ==> final(save_games).0@[fi].date@ == date@ && final(save_games).0@[fi].name@ == old(save_games).0@[fi].name@
        }),
        (*old(save_name)) is New && old(save_games).0@.len() >= MAX_SAVE_GAMES ==> {
            &&& r is None
            &&& (*final(save_name)) is New
            &&& final(save_games).0@ == old(save_games).0@
        },
        (*old(save_name)) is New && old(save_games).0@.len() < MAX_SAVE_GAMES ==> ({
            let nm = spec_slot_file(old(save_games).0@.len() as int);
            let fi = spec_first_named(old(save_games).0@, nm);
            &&& r matches Some(p) && p@ == "saves/"@ + nm
            &&& (*final(save_name)) matches SaveName::Load(n2) && n2@ == nm
            &&& final(save_games).0@.len() == old(save_games).0@.len() + 1
            &&& final(save_games).0@.last().name@ == nm
            &&& final(save_games).0@.last().date@ == date@
            &&& forall|i: int|
                0 <= i < old(save_games).0@.len() && i != fi ==> final(save_games).0@[i] == old(save_games).0@[i]
            &&& fi < old(save_games).0@.len() ==> final(save_games).0@[fi].date@ == date@ && final(save_games).0@[fi].name@ == old(save_games).0@[fi].name@
        }),
{
    let n: String = match save_name {
        SaveName::Load(name) => name.clone(),
        SaveName::New => {
            let len = save_games.0.len();
            if len >= MAX_SAVE_GAMES {
                return None;
            }
            let nm = slot_file(len);
            save_games.0.push(SaveGameMetaData { date: date.clone(), name: nm.clone() });
            *save_name = SaveName::Load(nm.clone());
            nm
        },
    };
    let ghost pre_wd = save_games.0@;
    save_games.write_date(&n, date);
    proof {
        let s0 = old(save_games).0@;
        if (*old(save_name)) is New {
            let nm = spec_slot_file(s0.len() as int);
            let x = pre_wd.last();
            assert(pre_wd =~= s0.push(x));
            assert(x.name@ == nm && x.date@ == date@);
            lemma_first_named_push(s0, x, nm);
            lemma_first_named_nonneg(s0, nm);
            let fi_old = spec_first_named(s0, nm);
            let fi_full = spec_first_named(pre_wd, nm);
            assert(forall|i: int|
                0 <= i < s0.len() && i != fi_full ==> save_games.0@[i] == pre_wd[i]);
            assert(forall|i: int| 0 <= i < s0.len() ==> pre_wd[i] == s0[i]);
            if fi_old < s0.len() {
                assert(fi_full == fi_old);
                assert(save_games.0@.last() == pre_wd.last());
            } else {
                assert(fi_full == s0.len());
                assert(save_games.0@[fi_full].date@ == date@);
                assert(save_games.0@[fi_full].name@ == pre_wd[fi_full].name@);
                assert(pre_wd[fi_full].name@ == nm);
            }
        }
    }
    Some(String::from_str("saves/").concat(n.as_str()))
}

} // verus!
