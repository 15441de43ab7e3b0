//! Color themes for the visualizer.

use vstd::prelude::*;

verus! {

/// The colors the built-in themes use.
#[derive(Clone, Copy, Debug, PartialEq, Eq, Structural)]
pub enum ThemeColor {
    Blue,
    Cyan,
    Green,
    Yellow,
    Red,
    White,
    Rgb(u8, u8, u8),
}

/// A color theme defines the gradient stops for spectrum bars and the line
/// color used for waveform/oscilloscope modes.
#[derive(Clone, Debug)]
pub struct Theme {
    pub name: &'static str,
    /// Colors from low to high amplitude.  Must have at least one entry.
    pub gradient: Vec<ThemeColor>,
    /// Line color for waveform mode.
    pub wave_color: ThemeColor,
    /// Line color for oscilloscope mode.
    pub scope_color: ThemeColor,
}

/// Number of built-in themes.
pub const NUM_THEMES: usize = 7;

pub open spec fn rgb(r: u8, g: u8, b: u8) -> ThemeColor {
    ThemeColor::Rgb(r, g, b)
}

/// Name of built-in theme `i`.
pub open spec fn theme_name(i: int) -> Seq<char> {
    if i == 0 {
        "classic"@
    } else if i == 1 {
        "fire"@
    } else if i == 2 {
        "ocean"@
    } else if i == 3 {
        "purple"@
    } else if i == 4 {
        "matrix"@
    } else if i == 5 {
        "synthwave"@
    } else {
        "mono"@
    }
}

/// Gradient of built-in theme `i`, from low to high amplitude.
pub open spec fn theme_gradient(i: int) -> Seq<ThemeColor> {
    if i == 0 {
        seq![ThemeColor::Blue, ThemeColor::Cyan, ThemeColor::Green, ThemeColor::Yellow, ThemeColor::Red]
    } else if i == 1 {
        seq![rgb(128, 0, 0), rgb(200, 50, 0), rgb(255, 100, 0), rgb(255, 180, 0), rgb(255, 255, 100)]
    } else if i == 2 {
        seq![rgb(0, 20, 60), rgb(0, 60, 120), rgb(0, 120, 180), rgb(0, 200, 220), rgb(150, 255, 255)]
    } else if i == 3 {
        seq![rgb(40, 0, 60), rgb(80, 0, 120), rgb(140, 0, 200), rgb(200, 80, 255), rgb(255, 180, 255)]
    } else if i == 4 {
        seq![rgb(0, 40, 0), rgb(0, 80, 0), rgb(0, 140, 0), rgb(0, 200, 0), rgb(0, 255, 0)]
    } else if i == 5 {
        seq![rgb(75, 0, 130), rgb(138, 43, 226), rgb(255, 0, 255), rgb(255, 105, 180), rgb(255, 165, 0)]
    } else {
        seq![rgb(80, 80, 80), rgb(120, 120, 120), rgb(160, 160, 160), rgb(200, 200, 200), ThemeColor::White]
    }
}

/// Waveform line color of built-in theme `i`.
pub open spec fn theme_wave(i: int) -> ThemeColor {
    if i == 0 {
        ThemeColor::Cyan
    } else if i == 1 {
        rgb(255, 100, 0)
    } else if i == 2 {
        rgb(0, 200, 220)
    } else if i == 3 {
        rgb(200, 80, 255)
    } else if i == 4 {
        rgb(0, 200, 0)
    } else if i == 5 {
        rgb(255, 105, 180)
    } else {
        rgb(200, 200, 200)
    }
}

/// Oscilloscope line color of built-in theme `i`.
pub open spec fn theme_scope(i: int) -> ThemeColor {
    if i == 0 {
        ThemeColor::Green
    } else if i == 1 {
        rgb(255, 180, 0)
    } else if i == 2 {
        rgb(150, 255, 255)
    } else if i == 3 {
        rgb(255, 180, 255)
    } else if i == 4 {
        rgb(0, 255, 0)
    } else if i == 5 {
        rgb(255, 165, 0)
    } else {
        ThemeColor::White
    }
}

/// Whether `t` is built-in theme `i`.
pub open spec fn is_builtin(t: Theme, i: int) -> bool {
    &&& t.name@ == theme_name(i)
    &&& t.gradient@ == theme_gradient(i)
    &&& t.wave_color == theme_wave(i)
    &&& t.scope_color == theme_scope(i)
}

fn make_theme(
    name: &'static str,
    gradient: Vec<ThemeColor>,
    wave_color: ThemeColor,
    scope_color: ThemeColor,
) -> (t: Theme)
    ensures
        t.name == name,
        t.gradient == gradient,
        t.wave_color == wave_color,
        t.scope_color == scope_color,
{
    Theme { name, gradient, wave_color, scope_color }
}

/// The built-in themes: classic, fire, ocean, purple, matrix, synthwave and
/// mono.
pub fn themes() -> (ts: Vec<Theme>)
    ensures
        ts@.len() == NUM_THEMES,
        forall|i: int| 0 <= i < NUM_THEMES ==> is_builtin(#[trigger] ts@[i], i),
{
    proof {
        reveal_strlit("classic");
        reveal_strlit("fire");
        reveal_strlit("ocean");
        reveal_strlit("purple");
        reveal_strlit("matrix");
        reveal_strlit("synthwave");
        reveal_strlit("mono");
    }
    let classic = make_theme(
        "classic",
        vec![ThemeColor::Blue, ThemeColor::Cyan, ThemeColor::Green, ThemeColor::Yellow, ThemeColor::Red],
        ThemeColor::Cyan,
        ThemeColor::Green,
    );
    let fire = make_theme(
        "fire",
        vec![
            ThemeColor::Rgb(128, 0, 0),
            ThemeColor::Rgb(200, 50, 0),
            ThemeColor::Rgb(255, 100, 0),
            ThemeColor::Rgb(255, 180, 0),
            ThemeColor::Rgb(255, 255, 100),
        ],
        ThemeColor::Rgb(255, 100, 0),
        ThemeColor::Rgb(255, 180, 0),
    );
    let ocean = make_theme(
        "ocean",
        vec![
            ThemeColor::Rgb(0, 20, 60),
            ThemeColor::Rgb(0, 60, 120),
            ThemeColor::Rgb(0, 120, 180),
            ThemeColor::Rgb(0, 200, 220),
            ThemeColor::Rgb(150, 255, 255),
        ],
        ThemeColor::Rgb(0, 200, 220),
        ThemeColor::Rgb(150, 255, 255),
    );
    let purple = make_theme(
        "purple",
        vec![
            ThemeColor::Rgb(40, 0, 60),
            ThemeColor::Rgb(80, 0, 120),
            ThemeColor::Rgb(140, 0, 200),
            ThemeColor::Rgb(200, 80, 255),
            ThemeColor::Rgb(255, 180, 255),
        ],
        ThemeColor::Rgb(200, 80, 255),
        ThemeColor::Rgb(255, 180, 255),
    );
    let matrix = make_theme(
        "matrix",
        vec![
            ThemeColor::Rgb(0, 40, 0),
            ThemeColor::Rgb(0, 80, 0),
            ThemeColor::Rgb(0, 140, 0),
            ThemeColor::Rgb(0, 200, 0),
            ThemeColor::Rgb(0, 255, 0),
        ],
        ThemeColor::Rgb(0, 200, 0),
        ThemeColor::Rgb(0, 255, 0),
    );
    let synthwave = make_theme(
        "synthwave",
        vec![
            ThemeColor::Rgb(75, 0, 130),
            ThemeColor::Rgb(138, 43, 226),
            ThemeColor::Rgb(255, 0, 255),
            ThemeColor::Rgb(255, 105, 180),
            ThemeColor::Rgb(255, 165, 0),
        ],
        ThemeColor::Rgb(255, 105, 180),
        ThemeColor::Rgb(255, 165, 0),
    );
    let mono = make_theme(
        "mono",
        vec![
            ThemeColor::Rgb(80, 80, 80),
            ThemeColor::Rgb(120, 120, 120),
            ThemeColor::Rgb(160, 160, 160),
            ThemeColor::Rgb(200, 200, 200),
            ThemeColor::White,
        ],
        ThemeColor::Rgb(200, 200, 200),
        ThemeColor::White,
    );
    let ts = vec![classic, fire, ocean, purple, matrix, synthwave, mono];
    assert(is_builtin(ts@[0], 0));
    assert(is_builtin(ts@[1], 1));
    assert(is_builtin(ts@[2], 2));
    assert(is_builtin(ts@[3], 3));
    assert(is_builtin(ts@[4], 4));
    assert(is_builtin(ts@[5], 5));
    assert(is_builtin(ts@[6], 6));
    ts
}

/// The index of the first of `names` equal to `name`, from `i` on; 0 when
/// there is none.
pub open spec fn first_named(names: Seq<Seq<char>>, name: Seq<char>, i: int) -> int
    decreases names.len() - i,
{
    if i < 0 || i >= names.len() {
        0
    } else if names[i] == name {
        i
    } else {
        first_named(names, name, i + 1)
    }
}

pub open spec fn theme_names(ts: Seq<Theme>) -> Seq<Seq<char>> {
    ts.map_values(|t: Theme| t.name@)
}

/// The index of the first theme called `name`, or 0 when no theme is.
pub fn theme_index(ts: &Vec<Theme>, name: &str) -> (idx: usize)
    ensures
        idx == first_named(theme_names(ts@), name@, 0),
        (exists|j: int| 0 <= j < ts@.len() && ts@[j].name@ == name@) ==> {
            &&& idx < ts@.len()
            &&& ts@[idx as int].name@ == name@
            &&& forall|j: int| 0 <= j < idx ==> ts@[j].name@ != name@
        },
        !(exists|j: int| 0 <= j < ts@.len() && ts@[j].name@ == name@) ==> idx == 0,
{
    let wanted = name.to_owned();
    let ghost names = theme_names(ts@);
    let mut i: usize = 0;
    while i < ts.len()
        invariant
            i <= ts@.len(),
            names == theme_names(ts@),
            wanted@ == name@,
            first_named(names, name@, 0) == first_named(names, name@, i as int),
            forall|j: int| 0 <= j < i ==> ts@[j].name@ != name@,
        decreases ts@.len() - i,
    {
        if ts[i].name.to_owned() == wanted {
            return i;
        }
        i += 1;
    }
    0
}

/// The index of the built-in theme called `name`; the classic theme for an
/// unknown name.
pub open spec fn builtin_index(name: Seq<char>) -> int {
    if name == theme_name(0) {
        0
    } else if name == theme_name(1) {
        1
    } else if name == theme_name(2) {
        2
    } else if name == theme_name(3) {
        3
    } else if name == theme_name(4) {
        4
    } else if name == theme_name(5) {
        5
    } else if name == theme_name(6) {
        6
    } else {
        0
    }
}

/// Find a built-in theme by name, or return the first (classic) theme.
pub fn by_name(name: &str) -> (t: Theme)
    ensures
        is_builtin(t, builtin_index(name@)),
{
    let mut ts = themes();
    let idx = theme_index(&ts, name);
    proof {
        let names = theme_names(ts@);
        assert(names.len() == 7);
        assert(forall|j: int| 0 <= j < 7 ==> names[j] == theme_name(j));
        lemma_first_named_builtin(names, name@);
    }
    ts.swap_remove(idx)
}

proof fn lemma_first_named_builtin(names: Seq<Seq<char>>, name: Seq<char>)
    requires
        names.len() == 7,
        forall|j: int| 0 <= j < 7 ==> names[j] == theme_name(j),
    ensures
        first_named(names, name, 0) == builtin_index(name),
{
    reveal_with_fuel(first_named, 8);
}

impl Theme {
    /// The gradient stop at index `idx`, or the last stop past the end.
    pub fn color_at(&self, idx: usize) -> (c: ThemeColor)
        requires
            self.gradient@.len() > 0,
        ensures
            c == self.gradient@[if idx < self.gradient@.len() { idx as int } else {
                self.gradient@.len() - 1
            }],
    {
        let last = self.gradient.len() - 1;
        self.gradient[if idx < last { idx } else { last }]
    }

    /// The middle gradient stop, used for borders and titles.
    pub fn border_color(&self) -> (c: ThemeColor)
        requires
            self.gradient@.len() > 0,
        ensures
            c == self.gradient@[(self.gradient@.len() / 2) as int],
    {
        self.gradient[self.gradient.len() / 2]
    }
}

/// Looking a built-in theme up by its own name finds that theme: the names
/// are distinct.  Every built-in gradient has five stops.
pub proof fn lemma_builtin_names_round_trip(i: int)
    requires
        0 <= i < NUM_THEMES,
    ensures
        builtin_index(theme_name(i)) == i,
        theme_gradient(i).len() == 5,
{
    reveal_strlit("classic");
    reveal_strlit("fire");
    reveal_strlit("ocean");
    reveal_strlit("purple");
    reveal_strlit("matrix");
    reveal_strlit("synthwave");
    reveal_strlit("mono");
    assert(theme_name(0).len() == 7 && theme_name(1).len() == 4 && theme_name(2).len() == 5);
    assert(theme_name(3).len() == 6 && theme_name(4).len() == 6 && theme_name(5).len() == 9);
    assert(theme_name(6).len() == 4);
    assert(theme_name(3)[0] != theme_name(4)[0]);
    assert(theme_name(1)[0] != theme_name(6)[0]);
}

} // verus!
