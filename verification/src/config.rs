//! The command line of the overlay.
//!
//! Paths that default to files in the Codex home directory are kept as
//! `InCodexHome`; the caller joins them to the home directory (and picks the
//! newest log database there). Scale factors are kept as the text given: the
//! caller reads each as a number, and the command line is refused when one
//! of them is not a number.
use vstd::prelude::*;
use crate::rate_limits::chars_of;

verus! {

/// The ring window's side in the preview and the fallback frame, by default.
pub const DEFAULT_SIZE: i32 = 220;

/// The characters are the same.
pub fn same_text(a: &str, b: &str) -> (r: bool)
    ensures
        r == (a@ == b@),
{
    let x = chars_of(a);
    let y = chars_of(b);
    if x.len() != y.len() {
        return false;
    }
    let mut i: usize = 0;
    while i < x.len()
        invariant
            x@ == a@,
            y@ == b@,
            x@.len() == y@.len(),
            0 <= i <= x@.len(),
            forall|j: int| 0 <= j < i ==> x@[j] == y@[j],
        decreases x@.len() - i,
    {
        if x[i] != y[i] {
            return false;
        }
        i = i + 1;
    }
    assert(x@ =~= y@);
    true
}

/// An ASCII decimal digit.
pub open spec fn is_digit(c: char) -> bool {
    48 <= (c as u32) <= 57
}

pub open spec fn all_digits(d: Seq<char>) -> bool {
    forall|i: int| 0 <= i < d.len() ==> is_digit(#[trigger] d[i])
}

/// The value of a string of decimal digits.
pub open spec fn digits_value(d: Seq<char>) -> int
    decreases d.len(),
{
    if d.len() == 0 {
        0
    } else {
        digits_value(d.drop_last()) * 10 + ((d.last() as u32) - 48)
    }
}

/// The length of a leading `+` or `-`.
pub open spec fn sign_len(s: Seq<char>) -> int {
    if s.len() > 0 && (s[0] == '-' || s[0] == '+') {
        1
    } else {
        0
    }
}

/// An `i32` written in decimal: an optional sign, then one digit or more,
/// with a value that fits.
pub open spec fn decimal_i32(s: Seq<char>) -> Option<i32> {
    let d = s.skip(sign_len(s));
    if d.len() > 0 && all_digits(d) {
        let v = if s[0] == '-' {
            -digits_value(d)
        } else {
            digits_value(d)
        };
        if i32::MIN <= v <= i32::MAX {
            Some(v as i32)
        } else {
            None
        }
    } else {
        None
    }
}

/// A longer string of digits is worth at least as much as its prefix.
proof fn lemma_digits_value_grows(d: Seq<char>, k: int)
    requires
        0 <= k <= d.len(),
        all_digits(d),
    ensures
        digits_value(d.take(k)) <= digits_value(d),
        digits_value(d) >= 0,
    decreases d.len(),
{
    if d.len() > 0 {
        let init = d.drop_last();
        assert(all_digits(init)) by {
            assert forall|i: int| 0 <= i < init.len() implies is_digit(#[trigger] init[i]) by {
                assert(init[i] == d[i]);
            }
        }
        assert(is_digit(d[d.len() - 1]));
        if k == d.len() {
            assert(d.take(k) =~= d);
            lemma_digits_value_grows(init, 0);
        } else {
            lemma_digits_value_grows(init, k);
            assert(init.take(k) =~= d.take(k));
        }
    }
}

/// Reads an `i32` written in decimal, as `str::parse::<i32>` does.
pub fn parse_i32(s: &str) -> (r: Option<i32>)
    ensures
        r == decimal_i32(s@),
{
    let cs = chars_of(s);
    let n = cs.len();
    if n == 0 {
        return None;
    }
    let negative = cs[0] == '-';
    let start: usize = if cs[0] == '-' || cs[0] == '+' {
        1
    } else {
        0
    };
    let ghost d = s@.skip(start as int);
    if start == n {
        return None;
    }
    let mut acc: i64 = 0;
    let mut k: usize = start;
    while k < n
        invariant
            cs@ == s@,
            n == cs@.len(),
            start as int == sign_len(s@),
            d == s@.skip(start as int),
            start <= k <= n,
            negative == (s@[0] == '-'),
            all_digits(d.take(k - start)),
            acc == digits_value(d.take(k - start)),
            0 <= acc <= 0x8000_0000,
        decreases n - k,
    {
        let c = cs[k];
        let code = c as u32;
        assert(d[k - start] == c);
        if code < 48 || code > 57 {
            assert(!is_digit(d[k - start]));
            return None;
        }
        proof {
            let t = d.take(k - start + 1);
            assert(t.drop_last() =~= d.take(k - start));
            assert(t.last() == c);
            assert(all_digits(t)) by {
                assert forall|i: int| 0 <= i < t.len() implies is_digit(#[trigger] t[i]) by {
                    if i < t.len() - 1 {
                        assert(t[i] == d.take(k - start)[i]);
                    }
                }
            }
        }
        acc = acc * 10 + (code - 48) as i64;
        k = k + 1;
        if acc > 0x8000_0000 {
            proof {
                if all_digits(d) {
                    lemma_digits_value_grows(d, k - start);
                }
            }
            return None;
        }
    }
    assert(d.take(n - start) =~= d);
    let v: i64 = if negative {
        -acc
    } else {
        acc
    };
    if v < -0x8000_0000 || v > 0x7fff_ffff {
        None
    } else {
        Some(v as i32)
    }
}

/// A path that is either given on the command line or a file in the Codex
/// home directory.
pub enum PathChoice {
    InCodexHome,
    Given(String),
}

pub enum PathView {
    InCodexHome,
    Given(Seq<char>),
}

impl View for PathChoice {
    type V = PathView;

    open spec fn view(&self) -> PathView {
        match self {
            PathChoice::InCodexHome => PathView::InCodexHome,
            PathChoice::Given(s) => PathView::Given(s@),
        }
    }
}

/// The settings the command line gives.
pub struct CliConfig {
    /// The Codex home directory, where `--codex-home` gives one.
    pub codex_home: Option<String>,
    pub state: PathChoice,
    pub logs: PathChoice,
    pub auth: PathChoice,
    pub preview: Option<String>,
    pub size: i32,
    pub show_without_pet: bool,
    /// The offsets given, else the saved ones apply.
    pub offset_x: Option<i32>,
    pub offset_y: Option<i32>,
    /// Every text given for a scale factor, in order; the last one counts.
    pub scale_x: Vec<String>,
    pub scale_y: Vec<String>,
}

pub struct CliView {
    pub codex_home: Option<Seq<char>>,
    pub state: PathView,
    pub logs: PathView,
    pub auth: PathView,
    pub preview: Option<Seq<char>>,
    pub size: i32,
    pub show_without_pet: bool,
    pub offset_x: Option<i32>,
    pub offset_y: Option<i32>,
    pub scale_x: Seq<Seq<char>>,
    pub scale_y: Seq<Seq<char>>,
}

pub open spec fn opt_view(s: Option<String>) -> Option<Seq<char>> {
    match s {
        Some(t) => Some(t@),
        None => None,
    }
}

pub open spec fn texts_view(v: Seq<String>) -> Seq<Seq<char>> {
    v.map_values(|s: String| s@)
}

impl View for CliConfig {
    type V = CliView;

    open spec fn view(&self) -> CliView {
        CliView {
            codex_home: opt_view(self.codex_home),
            state: self.state@,
            logs: self.logs@,
            auth: self.auth@,
            preview: opt_view(self.preview),
            size: self.size,
            show_without_pet: self.show_without_pet,
            offset_x: self.offset_x,
            offset_y: self.offset_y,
            scale_x: texts_view(self.scale_x@),
            scale_y: texts_view(self.scale_y@),
        }
    }
}

/// The settings before any argument.
pub open spec fn default_cli() -> CliView {
    CliView {
        codex_home: None,
        state: PathView::InCodexHome,
        logs: PathView::InCodexHome,
        auth: PathView::InCodexHome,
        preview: None,
        size: DEFAULT_SIZE,
        show_without_pet: false,
        offset_x: None,
        offset_y: None,
        scale_x: Seq::empty(),
        scale_y: Seq::empty(),
    }
}

/// The settings that the arguments from `i` on give, starting from `c`; none
/// where help is asked for, an option is unknown, or an option's value is
/// missing or not an integer. A `--preview` with no value clears the preview.
pub open spec fn parse_from(args: Seq<Seq<char>>, i: int, c: CliView) -> Option<CliView>
    decreases args.len() + 1 - i,
{
    if i < 0 || i >= args.len() {
        Some(c)
    } else {
        let a = args[i];
        let next: Option<Seq<char>> = if i + 1 < args.len() {
            Some(args[i + 1])
        } else {
            None
        };
        if a == "--help"@ || a == "-h"@ {
            None
        } else if a == "--preview"@ {
            parse_from(args, i + 2, CliView { preview: next, ..c })
        } else if a == "--show-without-pet"@ {
            parse_from(args, i + 1, CliView { show_without_pet: true, ..c })
        } else if a == "--codex-home"@ || a == "--logs"@ || a == "--auth"@ || a == "--state"@
            || a == "--size"@ || a == "--offset-x"@ || a == "--offset-y"@ || a == "--scale-x"@
            || a == "--scale-y"@ {
            match next {
                None => None,
                Some(v) => {
                    let n = decimal_i32(v);
                    if a == "--codex-home"@ {
                        parse_from(
                            args,
                            i + 2,
                            CliView {
                                codex_home: Some(v),
                                state: PathView::InCodexHome,
                                logs: PathView::InCodexHome,
                                auth: PathView::InCodexHome,
                                ..c
                            },
                        )
                    } else if a == "--logs"@ {
                        parse_from(args, i + 2, CliView { logs: PathView::Given(v), ..c })
                    } else if a == "--auth"@ {
                        parse_from(args, i + 2, CliView { auth: PathView::Given(v), ..c })
                    } else if a == "--state"@ {
                        parse_from(args, i + 2, CliView { state: PathView::Given(v), ..c })
                    } else if a == "--scale-x"@ {
                        parse_from(args, i + 2, CliView { scale_x: c.scale_x.push(v), ..c })
                    } else if a == "--scale-y"@ {
                        parse_from(args, i + 2, CliView { scale_y: c.scale_y.push(v), ..c })
                    } else {
                        match n {
                            None => None,
                            Some(k) => if a == "--size"@ {
                                parse_from(args, i + 2, CliView { size: k, ..c })
                            } else if a == "--offset-x"@ {
                                parse_from(args, i + 2, CliView { offset_x: Some(k), ..c })
                            } else {
                                parse_from(args, i + 2, CliView { offset_y: Some(k), ..c })
                            },
                        }
                    }
                },
            }
        } else {
            None
        }
    }
}

pub open spec fn args_view(args: Seq<String>) -> Seq<Seq<char>> {
    args.map_values(|s: String| s@)
}

fn clone_texts(v: &Vec<String>) -> (r: Vec<String>)
    ensures
        texts_view(r@) == texts_view(v@),
{
    let mut out: Vec<String> = Vec::new();
    let mut i: usize = 0;
    while i < v.len()
        invariant
            0 <= i <= v@.len(),
            out@.len() == i,
            forall|j: int| 0 <= j < i ==> out@[j]@ == v@[j]@,
        decreases v@.len() - i,
    {
        out.push(v[i].clone());
        i = i + 1;
    }
    assert(texts_view(out@) =~= texts_view(v@));
    out
}

/// Reads the command-line arguments (without the program name).
pub fn parse_args(args: &Vec<String>) -> (r: Option<CliConfig>)
    ensures
        match r {
            Some(c) => parse_from(args_view(args@), 0, default_cli()) == Some(c@),
            None => parse_from(args_view(args@), 0, default_cli()) is None,
        },
{
    let ghost views = args_view(args@);
    let mut c = CliConfig {
        codex_home: None,
        state: PathChoice::InCodexHome,
        logs: PathChoice::InCodexHome,
        auth: PathChoice::InCodexHome,
        preview: None,
        size: DEFAULT_SIZE,
        show_without_pet: false,
        offset_x: None,
        offset_y: None,
        scale_x: Vec::new(),
        scale_y: Vec::new(),
    };
    assert(c@.scale_x =~= Seq::<Seq<char>>::empty());
    assert(c@.scale_y =~= Seq::<Seq<char>>::empty());
    assert(c@ == default_cli());
    let n = args.len();
    let mut i: usize = 0;
    while i < n
        invariant
            n == args@.len(),
            views == args_view(args@),
            0 <= i <= n,
            parse_from(views, 0, default_cli()) == parse_from(views, i as int, c@),
        decreases n + 1 - i,
    {
        let ghost c0 = c@;
        let ghost i0 = i as int;
        let a = args[i].as_str();
        assert(views[i as int] == a@);
        let has_next = i + 1 < n;
        proof {
            if has_next {
                assert(views[i + 1] == args@[i + 1]@);
            }
        }
        if same_text(a, "--help") || same_text(a, "-h") {
            return None;
        } else if same_text(a, "--preview") {
            c.preview = if has_next {
                Some(args[i + 1].clone())
            } else {
                None
            };
            i = if has_next {
                i + 2
            } else {
                n
            };
            assert(parse_from(views, i0, c0) == parse_from(views, i as int, c@));
        } else if same_text(a, "--show-without-pet") {
            c.show_without_pet = true;
            i = i + 1;
            assert(parse_from(views, i0, c0) == parse_from(views, i as int, c@));
        } else if same_text(a, "--codex-home") || same_text(a, "--logs") || same_text(a, "--auth")
            || same_text(a, "--state") || same_text(a, "--size") || same_text(a, "--offset-x")
            || same_text(a, "--offset-y") || same_text(a, "--scale-x") || same_text(
            a,
            "--scale-y",
        ) {
            if !has_next {
                return None;
            }
            let v = args[i + 1].as_str();
            if same_text(a, "--codex-home") {
                c.codex_home = Some(String::from_str(v));
                c.state = PathChoice::InCodexHome;
                c.logs = PathChoice::InCodexHome;
                c.auth = PathChoice::InCodexHome;
                assert(parse_from(views, i0, c0) == parse_from(views, i0 + 2, c@));
            } else if same_text(a, "--logs") {
                c.logs = PathChoice::Given(String::from_str(v));
                assert(parse_from(views, i0, c0) == parse_from(views, i0 + 2, c@));
            } else if same_text(a, "--auth") {
                c.auth = PathChoice::Given(String::from_str(v));
            } else if same_text(a, "--state") {
                c.state = PathChoice::Given(String::from_str(v));
            } else if same_text(a, "--scale-x") {
                let ghost before = c.scale_x@;
                c.scale_x.push(String::from_str(v));
                assert(texts_view(c.scale_x@) =~= texts_view(before).push(v@));
            } else if same_text(a, "--scale-y") {
                let ghost before = c.scale_y@;
                c.scale_y.push(String::from_str(v));
                assert(texts_view(c.scale_y@) =~= texts_view(before).push(v@));
            } else {
                let k = match parse_i32(v) {
                    Some(k) => k,
                    None => {
                        return None;
                    },
                };
                if same_text(a, "--size") {
                    c.size = k;
                    assert(parse_from(views, i0, c0) == parse_from(views, i0 + 2, c@));
                } else if same_text(a, "--offset-x") {
                    c.offset_x = Some(k);
                } else {
                    c.offset_y = Some(k);
                }
            }
            i = i + 2;
        } else {
            return None;
        }
    }
    Some(c)
}

/// A later option wins over an earlier one: giving `--size` twice keeps the
/// second value.
pub proof fn law_last_size_wins(a: i32, b: i32, sa: Seq<char>, sb: Seq<char>)
    requires
        decimal_i32(sa) == Some(a),
        decimal_i32(sb) == Some(b),
    ensures
        parse_from(seq!["--size"@, sa, "--size"@, sb], 0, default_cli()) == Some(
            CliView { size: b, ..default_cli() },
        ),
{
    reveal_strlit("--size");
    reveal_strlit("--help");
    reveal_strlit("-h");
    reveal_strlit("--preview");
    reveal_strlit("--show-without-pet");
    reveal_strlit("--codex-home");
    reveal_strlit("--logs");
    reveal_strlit("--auth");
    reveal_strlit("--state");
    reveal_strlit("--scale-x");
    reveal_strlit("--scale-y");
    reveal_strlit("--offset-x");
    reveal_strlit("--offset-y");
    assert("--size"@ != "--help"@) by {
        assert("--size"@[2] != "--help"@[2]);
    }
    assert("--size"@ != "--logs"@) by {
        assert("--size"@[2] != "--logs"@[2]);
    }
    assert("--size"@ != "--auth"@) by {
        assert("--size"@[2] != "--auth"@[2]);
    }
    let args = seq!["--size"@, sa, "--size"@, sb];
    assert(args.len() == 4);
    assert(args[0] == "--size"@ && args[1] == sa && args[2] == "--size"@ && args[3] == sb);
    assert("--size"@.len() == 6 && "-h"@.len() == 2);
    assert("--size"@ != "-h"@);
    assert("--size"@ != "--preview"@);
    assert("--show-without-pet"@.len() == 18);
    assert("--size"@ != "--show-without-pet"@);
    assert("--size"@ != "--codex-home"@);
    assert("--size"@ != "--state"@);
    assert("--size"@ != "--scale-x"@);
    assert("--size"@ != "--scale-y"@);
    let c1 = CliView { size: a, ..default_cli() };
    let c2 = CliView { size: b, ..default_cli() };
    assert(parse_from(args, 4, c2) == Some(c2));
    assert(parse_from(args, 2, c1) == parse_from(args, 4, c2));
    assert(parse_from(args, 0, default_cli()) == parse_from(args, 2, c1));
}

/// A command line that starts by asking for help is refused, whatever follows.
pub proof fn law_help_refuses(args: Seq<Seq<char>>, c: CliView)
    requires
        args.len() > 0,
        args[0] == "--help"@,
    ensures
        parse_from(args, 0, c) is None,
{
}

} // verus!
