//! Clip names: a tong's machine states are its clips' names, one per facing, spelled
//! `<clip>_<facing>`; this is where a name is built, taken apart again, and read as
//! the jaw pose the drawn frame shows.

use vstd::prelude::*;
use vstd::string::*;
use crate::types::{
    Facing, Jaw, TongControl, facing_suffix, TONG_OPEN, TONG_CLOSING, TONG_CLOSED, TONG_OPENING,
    TONG_SCORED_ON,
};

verus! {

/// The name of a tong clip in one facing: `open` and `Up` make `open_up`.
pub open spec fn tong_state_name(clip: Seq<char>, facing: Facing) -> Seq<char> {
    clip + "_"@ + facing_suffix(facing)
}

/// The index of the last `_` in `s`, or -1 when it has none.
pub open spec fn last_underscore(s: Seq<char>) -> int
    decreases s.len(),
{
    if s.len() == 0 {
        -1
    } else if s.last() == '_' {
        s.len() - 1
    } else {
        last_underscore(s.drop_last())
    }
}

/// A clip or state name split at its last `_` into its base clip and its facing, or
/// `None` for a name whose last part is not a facing.
pub open spec fn split_clip(s: Seq<char>) -> Option<(Seq<char>, Facing)> {
    let i = last_underscore(s);
    if i < 0 {
        None
    } else {
        let suffix = s.subrange(i + 1, s.len() as int);
        if suffix == "up"@ {
            Some((s.subrange(0, i), Facing::Up))
        } else if suffix == "down"@ {
            Some((s.subrange(0, i), Facing::Down))
        } else {
            None
        }
    }
}

/// The last `_` of `s` is at `k` when `s[k]` is one and nothing after it is.
proof fn lemma_last_underscore_at(s: Seq<char>, k: int)
    requires
        0 <= k < s.len(),
        s[k] == '_',
        forall|j: int| k < j < s.len() ==> s[j] != '_',
    ensures
        last_underscore(s) == k,
    decreases s.len(),
{
    if s.last() != '_' {
        lemma_last_underscore_at(s.drop_last(), k);
    }
}

/// A name with no `_` at all has none to split at.
proof fn lemma_no_underscore(s: Seq<char>)
    requires
        forall|j: int| 0 <= j < s.len() ==> s[j] != '_',
    ensures
        last_underscore(s) == -1,
    decreases s.len(),
{
    if s.len() > 0 {
        lemma_no_underscore(s.drop_last());
    }
}

/// Splitting a clip name made by `tong_state_name` gives back the clip and the facing
/// it was made from, whatever the clip is called: the facing's suffix has no `_`, so
/// the last one is the one the name was joined at.
pub proof fn lemma_split_undoes_tong_state(clip: Seq<char>, facing: Facing)
    ensures
        split_clip(tong_state_name(clip, facing)) == Some((clip, facing)),
{
    reveal_strlit("_");
    reveal_strlit("up");
    reveal_strlit("down");
    let s = tong_state_name(clip, facing);
    let k = clip.len() as int;
    assert(s[k] == '_');
    assert forall|j: int| k < j < s.len() implies s[j] != '_' by {
        assert(s[j] == facing_suffix(facing)[j - k - 1]);
    }
    lemma_last_underscore_at(s, k);
    assert(s.subrange(k + 1, s.len() as int) =~= facing_suffix(facing));
    assert(s.subrange(0, k) =~= clip);
}

/// Whether two strings hold the same characters.
pub fn str_eq(a: &str, b: &str) -> (same: bool)
    ensures
        same == (a@ == b@),
{
    let n = a.unicode_len();
    if n != b.unicode_len() {
        return false;
    }
    let mut i: usize = 0;
    while i < n
        invariant
            n == a@.len(),
            n == b@.len(),
            i <= n,
            forall|j: int| 0 <= j < i ==> a@[j] == b@[j],
        decreases n - i,
    {
        if a.get_char(i) != b.get_char(i) {
            return false;
        }
        i = i + 1;
    }
    assert(a@ =~= b@);
    true
}

/// A tong clip's name for one facing: `open` and `Up` make `open_up`. The ten names a
/// tong's machine states and its sheet's clips share, spelled in one place.
pub fn tong_state(clip: &str, facing: Facing) -> (name: String)
    ensures
        name@ == tong_state_name(clip@, facing),
{
    let name = String::from_str(clip).concat("_").concat(facing.suffix());
    name
}

impl Facing {
    /// Split a tong clip (or the machine state named after it) into its base clip and
    /// its facing, or `None` for a name that carries no facing suffix.
    pub fn split(clip: &str) -> (parts: Option<(&str, Facing)>)
        ensures
            match parts {
                Some((base, facing)) => split_clip(clip@) == Some((base@, facing)),
                None => split_clip(clip@) is None,
            },
    {
        let n = clip.unicode_len();
        let mut i: usize = n;
        let mut found = false;
        while i > 0 && !found
            invariant
                n == clip@.len(),
                i <= n,
                found ==> i > 0 && clip@[i - 1] == '_',
                forall|j: int| i <= j < n ==> clip@[j] != '_',
            decreases i + (if found { 0int } else { 1int }),
        {
            if clip.get_char(i - 1) == '_' {
                found = true;
            } else {
                i = i - 1;
            }
        }
        if i == 0 {
            proof {
                lemma_no_underscore(clip@);
            }
            return None;
        }
        proof {
            lemma_last_underscore_at(clip@, i - 1);
        }
        let base = clip.substring_char(0, i - 1);
        let suffix = clip.substring_char(i, n);
        if str_eq(suffix, "up") {
            Some((base, Facing::Up))
        } else if str_eq(suffix, "down") {
            Some((base, Facing::Down))
        } else {
            None
        }
    }
}


/// A tong's five clips. Each is also a state of its machine, once per facing.
#[derive(Debug, Clone, Copy, PartialEq, Eq, Structural)]
pub enum TongClip {
    Open,
    Closing,
    Closed,
    Opening,
    ScoredOn,
}

/// The name a tong clip goes by in the sheet and in the machine.
pub open spec fn clip_name(clip: TongClip) -> Seq<char> {
    match clip {
        TongClip::Open => TONG_OPEN@,
        TongClip::Closing => TONG_CLOSING@,
        TongClip::Closed => TONG_CLOSED@,
        TongClip::Opening => TONG_OPENING@,
        TongClip::ScoredOn => TONG_SCORED_ON@,
    }
}

/// The tong clip called `name`, if any is.
pub open spec fn clip_named(name: Seq<char>) -> Option<TongClip> {
    if name == TONG_OPEN@ {
        Some(TongClip::Open)
    } else if name == TONG_CLOSING@ {
        Some(TongClip::Closing)
    } else if name == TONG_CLOSED@ {
        Some(TongClip::Closed)
    } else if name == TONG_OPENING@ {
        Some(TongClip::Opening)
    } else if name == TONG_SCORED_ON@ {
        Some(TongClip::ScoredOn)
    } else {
        None
    }
}

/// The five names are five different words, so reading a clip's name gives back that
/// clip.
pub proof fn lemma_clip_named_undoes_clip_name(clip: TongClip)
    ensures
        clip_named(clip_name(clip)) == Some(clip),
{
    reveal_strlit("open");
    reveal_strlit("closing");
    reveal_strlit("closed");
    reveal_strlit("opening");
    reveal_strlit("scored_on");
    assert(TONG_OPEN@ == "open"@);
    assert(TONG_OPEN@.len() == 4);
    assert(TONG_CLOSING@.len() == 7);
    assert(TONG_CLOSED@.len() == 6);
    assert(TONG_OPENING@.len() == 7);
    assert(TONG_SCORED_ON@.len() == 9);
    assert(TONG_CLOSING@[0] != TONG_OPENING@[0]);
}

impl TongClip {
    /// The clip's name.
    pub fn name(self) -> (name: &'static str)
        ensures
            name@ == clip_name(self),
    {
        match self {
            TongClip::Open => TONG_OPEN,
            TongClip::Closing => TONG_CLOSING,
            TongClip::Closed => TONG_CLOSED,
            TongClip::Opening => TONG_OPENING,
            TongClip::ScoredOn => TONG_SCORED_ON,
        }
    }

    /// The tong clip called `name`, or `None` for a name that is none of the five.
    pub fn parse(name: &str) -> (clip: Option<TongClip>)
        ensures
            clip == clip_named(name@),
    {
        if str_eq(name, TONG_OPEN) {
            Some(TongClip::Open)
        } else if str_eq(name, TONG_CLOSING) {
            Some(TongClip::Closing)
        } else if str_eq(name, TONG_CLOSED) {
            Some(TongClip::Closed)
        } else if str_eq(name, TONG_OPENING) {
            Some(TongClip::Opening)
        } else if str_eq(name, TONG_SCORED_ON) {
            Some(TongClip::ScoredOn)
        } else {
            None
        }
    }
}

/// The clip a jaw resting in this position plays.
pub open spec fn resting_clip(jaw: Jaw) -> TongClip {
    match jaw {
        Jaw::Open => TongClip::Open,
        Jaw::Closed => TongClip::Closed,
    }
}

} // verus!
