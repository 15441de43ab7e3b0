//! Visualization modes and their textual names.

use vstd::prelude::*;

verus! {

/// The four visualization modes, in the order `m` cycles through them.
#[derive(Clone, Copy, Debug, PartialEq, Eq, Structural)]
pub enum Mode {
    Spectrum,
    Wave,
    Scope,
    Stereo,
}

/// The name under which a mode is written to the configuration file.
pub open spec fn mode_name(m: Mode) -> Seq<char> {
    match m {
        Mode::Spectrum => seq!['s', 'p', 'e', 'c', 't', 'r', 'u', 'm'],
        Mode::Wave => seq!['w', 'a', 'v', 'e'],
        Mode::Scope => seq!['s', 'c', 'o', 'p', 'e'],
        Mode::Stereo => seq!['s', 't', 'e', 'r', 'e', 'o'],
    }
}

/// The mode a name selects: the three non-default names select their mode,
/// every other text selects the spectrum.
pub open spec fn mode_of_name(s: Seq<char>) -> Mode {
    if s == mode_name(Mode::Wave) {
        Mode::Wave
    } else if s == mode_name(Mode::Scope) {
        Mode::Scope
    } else if s == mode_name(Mode::Stereo) {
        Mode::Stereo
    } else {
        Mode::Spectrum
    }
}

/// The mode that follows `m` in the cycle spectrum, wave, scope, stereo.
pub open spec fn next_mode(m: Mode) -> Mode {
    match m {
        Mode::Spectrum => Mode::Wave,
        Mode::Wave => Mode::Scope,
        Mode::Scope => Mode::Stereo,
        Mode::Stereo => Mode::Spectrum,
    }
}

proof fn lemma_literal_names()
    ensures
        "spectrum"@ == mode_name(Mode::Spectrum),
        "wave"@ == mode_name(Mode::Wave),
        "scope"@ == mode_name(Mode::Scope),
        "stereo"@ == mode_name(Mode::Stereo),
{
    reveal_strlit("spectrum");
    reveal_strlit("wave");
    reveal_strlit("scope");
    reveal_strlit("stereo");
    assert("spectrum"@ =~= mode_name(Mode::Spectrum));
    assert("wave"@ =~= mode_name(Mode::Wave));
    assert("scope"@ =~= mode_name(Mode::Scope));
    assert("stereo"@ =~= mode_name(Mode::Stereo));
}

impl Mode {
    /// Parse a mode name; unknown names fall back to the spectrum.
    pub fn from_str(s: &str) -> (m: Mode)
        ensures
            m == mode_of_name(s@),
    {
        let owned = s.to_owned();
        if owned == "wave".to_owned() {
            proof { lemma_literal_names(); }
            Mode::Wave
        } else if owned == "scope".to_owned() {
            proof { lemma_literal_names(); }
            Mode::Scope
        } else if owned == "stereo".to_owned() {
            proof { lemma_literal_names(); }
            Mode::Stereo
        } else {
            proof { lemma_literal_names(); }
            Mode::Spectrum
        }
    }

    /// The configuration name of this mode.
    pub fn as_str(&self) -> (s: &'static str)
        ensures
            s@ == mode_name(*self),
    {
        match self {
            Mode::Spectrum => {
                proof { lemma_literal_names(); }
                "spectrum"
            },
            Mode::Wave => {
                proof { lemma_literal_names(); }
                "wave"
            },
            Mode::Scope => {
                proof { lemma_literal_names(); }
                "scope"
            },
            Mode::Stereo => {
                proof { lemma_literal_names(); }
                "stereo"
            },
        }
    }

    /// The next mode in the cycle.
    pub fn next(&self) -> (m: Mode)
        ensures
            m == next_mode(*self),
    {
        match self {
            Mode::Spectrum => Mode::Wave,
            Mode::Wave => Mode::Scope,
            Mode::Scope => Mode::Stereo,
            Mode::Stereo => Mode::Spectrum,
        }
    }
}

/// Reading back the name a mode is saved under gives the same mode.
pub proof fn lemma_mode_name_round_trip(m: Mode)
    ensures
        mode_of_name(mode_name(m)) == m,
{
    assert(mode_name(Mode::Wave) != mode_name(Mode::Spectrum)) by {
        assert(mode_name(Mode::Wave).len() != mode_name(Mode::Spectrum).len());
    }
    assert(mode_name(Mode::Scope) != mode_name(Mode::Spectrum)) by {
        assert(mode_name(Mode::Scope).len() != mode_name(Mode::Spectrum).len());
    }
    assert(mode_name(Mode::Stereo) != mode_name(Mode::Spectrum)) by {
        assert(mode_name(Mode::Stereo).len() != mode_name(Mode::Spectrum).len());
    }
    assert(mode_name(Mode::Scope) != mode_name(Mode::Wave)) by {
        assert(mode_name(Mode::Scope).len() != mode_name(Mode::Wave).len());
    }
    assert(mode_name(Mode::Stereo) != mode_name(Mode::Wave)) by {
        assert(mode_name(Mode::Stereo).len() != mode_name(Mode::Wave).len());
    }
    assert(mode_name(Mode::Stereo) != mode_name(Mode::Scope)) by {
        assert(mode_name(Mode::Stereo)[1] != mode_name(Mode::Scope)[1]);
    }
}

/// Cycling four times through the modes returns to the start, every mode
/// differs from the one after it, and from the spectrum the cycle goes
/// through wave, scope and stereo in that order.
pub proof fn lemma_mode_cycle(m: Mode)
    ensures
        next_mode(next_mode(next_mode(next_mode(m)))) == m,
        next_mode(m) != m,
        next_mode(next_mode(m)) != m,
        next_mode(Mode::Spectrum) == Mode::Wave,
        next_mode(next_mode(Mode::Spectrum)) == Mode::Scope,
        next_mode(next_mode(next_mode(Mode::Spectrum))) == Mode::Stereo,
{
}

} // verus!
