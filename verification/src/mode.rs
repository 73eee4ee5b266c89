//! The mode supervisor: which loops run, settled once at start-up.

use vstd::prelude::*;
use vstd::string::StrSliceExecFns;

verus! {

/// The operating modes. A process runs in one of them from start to end.
#[derive(Clone, Copy, Debug, PartialEq, Eq, Structural)]
pub enum Mode {
    /// The reflex loop, the morphology publisher and the deliberation loop.
    Awake,
    /// The idle loop alone.
    Dream,
    /// The logger that reports all bus traffic and acts on none.
    Debug,
}

/// Which loops a mode runs.
#[derive(Clone, Copy, Debug, PartialEq, Eq, Structural)]
pub struct ActiveLoops {
    pub reflex: bool,
    pub morphology: bool,
    pub planner: bool,
    pub dream: bool,
    pub debug: bool,
}

/// The mode that a configuration value selects, and whether the value was
/// one of the known names.
#[derive(Clone, Copy, Debug, PartialEq, Eq, Structural)]
pub struct ModeChoice {
    pub mode: Mode,
    pub recognized: bool,
}

/// A letter of `A` to `Z` as its small letter; every other character as
/// it is.
pub open spec fn lower_spec(c: char) -> char {
    if 'A' <= c && c <= 'Z' {
        ((c as u8) + 32) as char
    } else {
        c
    }
}

/// A text with its letters of `A` to `Z` made small.
pub open spec fn lowered(s: Seq<char>) -> Seq<char> {
    Seq::new(s.len(), |i: int| lower_spec(s[i]))
}

/// The mode that a configuration value selects. Case does not count. The
/// empty value selects `Awake`; so does a value that is no known name, but
/// such a value is reported as not recognized.
pub open spec fn select_spec(value: Seq<char>) -> ModeChoice {
    if lowered(value) == "awake"@ || value.len() == 0 {
        ModeChoice { mode: Mode::Awake, recognized: true }
    } else if lowered(value) == "dream"@ {
        ModeChoice { mode: Mode::Dream, recognized: true }
    } else if lowered(value) == "debug"@ {
        ModeChoice { mode: Mode::Debug, recognized: true }
    } else {
        ModeChoice { mode: Mode::Awake, recognized: false }
    }
}

fn lower(c: char) -> (l: char)
    ensures
        l == lower_spec(c),
{
    if 'A' <= c && c <= 'Z' {
        ((c as u8) + 32) as char
    } else {
        c
    }
}

fn is_name(value: &str, name: &str) -> (yes: bool)
    ensures
        yes == (lowered(value@) == name@),
{
    let n = value.unicode_len();
    if n != name.unicode_len() {
        return false;
    }
    let mut i: usize = 0;
    while i < n
        invariant
            n == value@.len(),
            n == name@.len(),
            i <= n,
            forall|k: int| 0 <= k < i ==> lower_spec(value@[k]) == name@[k],
        decreases n - i,
    {
        if lower(value.get_char(i)) != name.get_char(i) {
            assert(lowered(value@)[i as int] != name@[i as int]);
            return false;
        }
        i = i + 1;
    }
    assert(lowered(value@) =~= name@);
    true
}

impl Mode {
    /// The mode that a configuration value selects.
    pub fn select(value: &str) -> (choice: ModeChoice)
        ensures
            choice == select_spec(value@),
    {
        if is_name(value, "awake") || value.unicode_len() == 0 {
            ModeChoice { mode: Mode::Awake, recognized: true }
        } else if is_name(value, "dream") {
            ModeChoice { mode: Mode::Dream, recognized: true }
        } else if is_name(value, "debug") {
            ModeChoice { mode: Mode::Debug, recognized: true }
        } else {
            ModeChoice { mode: Mode::Awake, recognized: false }
        }
    }

    /// The loops that the mode runs.
    pub open spec fn loops_spec(self) -> ActiveLoops {
        match self {
            Mode::Awake => ActiveLoops {
                reflex: true,
                morphology: true,
                planner: true,
                dream: false,
                debug: false,
            },
            Mode::Dream => ActiveLoops {
                reflex: false,
                morphology: false,
                planner: false,
                dream: true,
                debug: false,
            },
            Mode::Debug => ActiveLoops {
                reflex: false,
                morphology: false,
                planner: false,
                dream: false,
                debug: true,
            },
        }
    }

    /// The loops that the mode runs.
    pub fn loops(self) -> (active: ActiveLoops)
        ensures
            active == self.loops_spec(),
    {
        match self {
            Mode::Awake => ActiveLoops {
                reflex: true,
                morphology: true,
                planner: true,
                dream: false,
                debug: false,
            },
            Mode::Dream => ActiveLoops {
                reflex: false,
                morphology: false,
                planner: false,
                dream: true,
                debug: false,
            },
            Mode::Debug => ActiveLoops {
                reflex: false,
                morphology: false,
                planner: false,
                dream: false,
                debug: true,
            },
        }
    }
}

} // verus!
