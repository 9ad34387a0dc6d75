//! Command line of the server: `--config <file>` (or `-c <file>`,
//! `--config=<file>`, `-c<file>`, `-c=<file>`), default `config.toml`;
//! `-h` / `--help` asks for help.
use vstd::prelude::*;

verus! {

/// The server's command-line arguments.
#[derive(Debug)]
pub struct ServerArgs {
    /// Path of the configuration file.
    pub config: String,
}

/// Why the command line was not accepted.
#[derive(Debug)]
pub enum ArgsError {
    /// Help was asked for (`-h` / `--help`).
    Help,
    /// An unknown option, as written back to the user.
    UnknownNamedArgument(String),
    /// `--config` / `-c` without a value.
    MissingValue,
    /// `--config` / `-c` given twice.
    DuplicatedNamedArgument,
    /// A positional argument, which the server takes none of.
    ExtraUnnamedArgument(String),
}

/// `ArgsError` with its texts taken by value.
pub enum ArgsErrorView {
    Help,
    UnknownNamedArgument(Seq<char>),
    MissingValue,
    DuplicatedNamedArgument,
    ExtraUnnamedArgument(Seq<char>),
}

impl View for ArgsError {
    type V = ArgsErrorView;

    open spec fn view(&self) -> ArgsErrorView {
        match self {
            ArgsError::Help => ArgsErrorView::Help,
            ArgsError::UnknownNamedArgument(s) => ArgsErrorView::UnknownNamedArgument(s@),
            ArgsError::MissingValue => ArgsErrorView::MissingValue,
            ArgsError::DuplicatedNamedArgument => ArgsErrorView::DuplicatedNamedArgument,
            ArgsError::ExtraUnnamedArgument(s) => ArgsErrorView::ExtraUnnamedArgument(s@),
        }
    }
}

/// The configuration file used when none is given.
pub open spec fn default_config() -> Seq<char> {
    "config.toml"@
}

/// An ASCII character.
pub open spec fn is_ascii_char(c: char) -> bool {
    (c as u32) < 128
}

/// `t` starts with `--` and has more after it.
pub open spec fn is_long_option(t: Seq<char>) -> bool {
    t.len() > 2 && t[0] == '-' && t[1] == '-'
}

/// `t` starts with a single `-` and has more after it.
pub open spec fn is_short_option(t: Seq<char>) -> bool {
    t.len() >= 2 && t[0] == '-' && t[1] != '-'
}

/// Index of the first `=` of `s`, if any.
pub open spec fn first_eq(s: Seq<char>) -> Option<int> {
    if exists|k: int| 0 <= k < s.len() && s[k] == '=' {
        Some(choose|k: int| 0 <= k < s.len() && s[k] == '=' && forall|j: int| 0 <= j < k ==> s[j] != '=')
    } else {
        None
    }
}

/// Name and inline value of a long option (`--name` or `--name=value`).
pub open spec fn long_parts(t: Seq<char>) -> (Seq<char>, Option<Seq<char>>) {
    let rest = t.skip(2);
    match first_eq(rest) {
        Some(k) => (rest.take(k), Some(rest.skip(k + 1))),
        None => (rest, None),
    }
}

/// The key a long option name is matched with: a one-letter ASCII name keeps
/// its `--`, so that it never matches a short option.
pub open spec fn long_key(name: Seq<char>) -> Seq<char> {
    if name.len() == 1 && is_ascii_char(name[0]) { "--"@ + name } else { name }
}

/// How an unknown option key is written back.
pub open spec fn shown_option(key: Seq<char>) -> Seq<char> {
    if key.len() <= 1 {
        "-"@ + key
    } else if !(key[0] == '-' && key[1] == '-') {
        "--"@ + key
    } else {
        key
    }
}

/// Whether `t` can be the value of an option given in the next argument.
pub open spec fn takes_as_value(t: Seq<char>) -> bool {
    t == "-"@ || !(t.len() > 0 && t[0] == '-')
}

/// What the argument at `i` is, for the option parser.
pub enum ArgStep {
    /// `--config` / `-c` with an inline value, or `None` for the next argument.
    Config(Option<Seq<char>>),
    Help,
    Unknown(Seq<char>),
    DashDash,
    Positional,
}

/// Classification of one argument.
pub open spec fn classify(t: Seq<char>) -> ArgStep {
    if t == "--"@ {
        ArgStep::DashDash
    } else if is_long_option(t) {
        let (name, value) = long_parts(t);
        let key = long_key(name);
        if key == "config"@ {
            ArgStep::Config(value)
        } else if key == "help"@ || key == "h"@ {
            ArgStep::Help
        } else {
            ArgStep::Unknown(shown_option(key))
        }
    } else if is_short_option(t) {
        let c = t[1];
        if !is_ascii_char(c) {
            ArgStep::Unknown("-"@ + seq![c])
        } else if c == 'c' {
            ArgStep::Config(
                if t.len() > 2 {
                    if t[2] == '=' { Some(t.skip(3)) } else { Some(t.skip(2)) }
                } else {
                    None
                },
            )
        } else if c == 'h' {
            ArgStep::Help
        } else {
            ArgStep::Unknown("-"@ + seq![c])
        }
    } else {
        ArgStep::Positional
    }
}

/// Parses `args[i..]` with `config` already given (or not): the configuration
/// path, or the first error met.
pub open spec fn parse_args_from(args: Seq<Seq<char>>, i: int, config: Option<Seq<char>>) -> Result<Seq<char>, ArgsErrorView>
    decreases args.len() - i,
{
    if i >= args.len() || i < 0 {
        Ok(match config { Some(c) => c, None => default_config() })
    } else {
        match classify(args[i]) {
            ArgStep::DashDash => {
                if i + 1 < args.len() {
                    Err(ArgsErrorView::ExtraUnnamedArgument(args[i + 1]))
                } else {
                    Ok(match config { Some(c) => c, None => default_config() })
                }
            },
            ArgStep::Positional => Err(ArgsErrorView::ExtraUnnamedArgument(args[i])),
            ArgStep::Help => Err(ArgsErrorView::Help),
            ArgStep::Unknown(shown) => Err(ArgsErrorView::UnknownNamedArgument(shown)),
            ArgStep::Config(Some(v)) => {
                if config is Some {
                    Err(ArgsErrorView::DuplicatedNamedArgument)
                } else {
                    parse_args_from(args, i + 1, Some(v))
                }
            },
            ArgStep::Config(None) => {
                if i + 1 < args.len() && takes_as_value(args[i + 1]) {
                    if config is Some {
                        Err(ArgsErrorView::DuplicatedNamedArgument)
                    } else {
                        parse_args_from(args, i + 2, Some(args[i + 1]))
                    }
                } else {
                    Err(ArgsErrorView::MissingValue)
                }
            },
        }
    }
}

/// The parse of the whole argument list (program name excluded).
pub open spec fn parse_args(args: Seq<Seq<char>>) -> Result<Seq<char>, ArgsErrorView> {
    parse_args_from(args, 0, None)
}

/// Law: without arguments the server reads `config.toml`; `--config <v>`
/// and `-c <v>` read `<v>` (any value that is `-` or does not start with
/// `-`); `-h` and `--help` ask for help.
pub proof fn law_config_and_help(v: Seq<char>)
    ensures
        parse_args(Seq::empty()) == Ok::<Seq<char>, ArgsErrorView>("config"@ + ".toml"@),
        takes_as_value(v) ==> parse_args(seq!["--"@ + "config"@, v]) == Ok::<Seq<char>, ArgsErrorView>(v),
        takes_as_value(v) ==> parse_args(seq!["-"@ + "c"@, v]) == Ok::<Seq<char>, ArgsErrorView>(v),
        parse_args(seq!["-"@ + "h"@]) == Err::<Seq<char>, ArgsErrorView>(ArgsErrorView::Help),
        parse_args(seq!["--"@ + "help"@]) == Err::<Seq<char>, ArgsErrorView>(ArgsErrorView::Help),
{
    reveal_strlit("config.toml");
    reveal_strlit("config");
    reveal_strlit(".toml");
    reveal_strlit("--");
    reveal_strlit("-");
    reveal_strlit("c");
    reveal_strlit("h");
    reveal_strlit("help");
    assert("config"@ + ".toml"@ =~= "config.toml"@);
    let long_config = "--"@ + "config"@;
    let rest = long_config.skip(2);
    assert(rest =~= "config"@);
    assert(!(exists|k: int| 0 <= k < rest.len() && rest[k] == '='));
    assert(long_parts(long_config) == ("config"@, None::<Seq<char>>));
    assert(long_key("config"@) == "config"@);
    assert(long_config != "--"@);
    assert(classify(long_config) == ArgStep::Config(None));
    let short_config = "-"@ + "c"@;
    assert(short_config =~= seq!['-', 'c']);
    assert(classify(short_config) == ArgStep::Config(None));
    let args1 = seq![long_config, v];
    assert(parse_args_from(args1, 2, Some(v)) == Ok::<Seq<char>, ArgsErrorView>(v));
    let args2 = seq![short_config, v];
    assert(parse_args_from(args2, 2, Some(v)) == Ok::<Seq<char>, ArgsErrorView>(v));
    let short_help = "-"@ + "h"@;
    assert(short_help =~= seq!['-', 'h']);
    assert(classify(short_help) == ArgStep::Help);
    let long_help = "--"@ + "help"@;
    let hrest = long_help.skip(2);
    assert(hrest =~= "help"@);
    assert(!(exists|k: int| 0 <= k < hrest.len() && hrest[k] == '='));
    assert(long_parts(long_help) == ("help"@, None::<Seq<char>>));
    assert(long_help != "--"@);
    assert(classify(long_help) == ArgStep::Help);
}

/// The text of an optional string.
pub open spec fn opt_text(o: Option<String>) -> Option<Seq<char>> {
    match o {
        Some(s) => Some(s@),
        None => None,
    }
}

fn char_at(s: &String, i: usize) -> (c: char)
    requires
        i < s@.len(),
    ensures
        c == s@[i as int],
{
    s.as_str().get_char(i)
}

fn text_eq(s: &String, lit: &str) -> (r: bool)
    ensures
        r == (s@ == lit@),
{
    let n = s.as_str().unicode_len();
    let m = lit.unicode_len();
    if n != m {
        return false;
    }
    let mut k: usize = 0;
    while k < n
        invariant
            n == s@.len(),
            m == lit@.len(),
            n == m,
            k <= n,
            forall|j: int| 0 <= j < k ==> s@[j] == lit@[j],
        decreases n - k,
    {
        if s.as_str().get_char(k) != lit.get_char(k) {
            return false;
        }
        k = k + 1;
    }
    assert(s@ =~= lit@);
    true
}

fn seq_eq_str(s: &str, lit: &str) -> (r: bool)
    ensures
        r == (s@ == lit@),
{
    let n = s.unicode_len();
    let m = lit.unicode_len();
    if n != m {
        return false;
    }
    let mut k: usize = 0;
    while k < n
        invariant
            n == s@.len(),
            m == lit@.len(),
            n == m,
            k <= n,
            forall|j: int| 0 <= j < k ==> s@[j] == lit@[j],
        decreases n - k,
    {
        if s.get_char(k) != lit.get_char(k) {
            return false;
        }
        k = k + 1;
    }
    assert(s@ =~= lit@);
    true
}

/// The classification of one argument (see `classify`).
fn classify_arg(t: &String) -> (r: (u8, Option<String>))
    ensures
        match classify(t@) {
            ArgStep::DashDash => r.0 == 0,
            ArgStep::Positional => r.0 == 1,
            ArgStep::Help => r.0 == 2,
            ArgStep::Unknown(shown) => r.0 == 3 && (r.1 matches Some(s) && s@ == shown),
            ArgStep::Config(Some(v)) => r.0 == 4 && (r.1 matches Some(s) && s@ == v),
            ArgStep::Config(None) => r.0 == 5,
        },
{
    proof {
        reveal_strlit("--");
        reveal_strlit("-");
    }
    let n = t.as_str().unicode_len();
    if text_eq(t, "--") {
        return (0, None);
    }
    if n > 2 && char_at(t, 0) == '-' && char_at(t, 1) == '-' {
        // long option
        let mut k: usize = 2;
        while k < n && char_at(t, k) != '='
            invariant
                n == t@.len(),
                2 <= k <= n,
                forall|j: int| 2 <= j < k ==> t@[j] != '=',
            decreases n - k,
        {
            k = k + 1;
        }
        let ghost rest = t@.skip(2);
        let name = t.as_str().substring_char(2, k);
        let value: Option<&str> = if k < n { Some(t.as_str().substring_char(k + 1, n)) } else { None };
        proof {
            if k < n {
                assert(rest[k - 2] == '=');
                assert(forall|j: int| 0 <= j < k - 2 ==> rest[j] != '=');
                let fe = first_eq(rest);
                assert(fe is Some);
                let c = fe->0;
                assert(0 <= c < rest.len() && rest[c] == '=' && forall|j: int| 0 <= j < c ==> rest[j] != '=');
                if c < k - 2 {
                    assert(false);
                }
                if c > k - 2 {
                    assert(rest[k - 2] != '=');
                }
                assert(name@ =~= rest.take(k - 2));
                assert(value->0@ =~= rest.skip(k - 2 + 1));
            } else {
                assert(!(exists|j: int| 0 <= j < rest.len() && rest[j] == '='));
                assert(name@ =~= rest);
            }
        }
        let one_ascii = name.unicode_len() == 1 && (name.get_char(0) as u32) < 128;
        let mut key = String::new();
        if one_ascii {
            key.append("--");
        }
        key.append(name);
        assert(key@ =~= long_key(name@));
        if text_eq(&key, "config") {
            return match value {
                Some(v) => (4, Some(v.to_string())),
                None => (5, None),
            };
        }
        if text_eq(&key, "help") || text_eq(&key, "h") {
            return (2, None);
        }
        let kl = key.as_str().unicode_len();
        let mut shown = String::new();
        if kl <= 1 {
            shown.append("-");
            shown.append(key.as_str());
        } else if !(char_at(&key, 0) == '-' && char_at(&key, 1) == '-') {
            shown.append("--");
            shown.append(key.as_str());
        } else {
            shown.append(key.as_str());
        }
        assert(shown@ =~= shown_option(key@));
        return (3, Some(shown));
    }
    if n >= 2 && char_at(t, 0) == '-' && char_at(t, 1) != '-' {
        let c = char_at(t, 1);
        let mut one = String::new();
        one.append("-");
        let cs = t.as_str().substring_char(1, 2);
        assert(cs@ =~= seq![c]);
        one.append(cs);
        assert(one@ =~= "-"@ + seq![c]);
        if (c as u32) >= 128 {
            return (3, Some(one));
        }
        if c == 'c' {
            if n > 2 {
                if char_at(t, 2) == '=' {
                    let v = t.as_str().substring_char(3, n);
                    assert(v@ =~= t@.skip(3));
                    return (4, Some(v.to_string()));
                } else {
                    let v = t.as_str().substring_char(2, n);
                    assert(v@ =~= t@.skip(2));
                    return (4, Some(v.to_string()));
                }
            }
            return (5, None);
        }
        if c == 'h' {
            return (2, None);
        }
        return (3, Some(one));
    }
    (1, None)
}

impl ServerArgs {
    /// Parses the server's arguments (the program name excluded).
    pub fn par(args: &[String]) -> (r: Result<ServerArgs, ArgsError>)
        ensures
            match parse_args(args@.map_values(|s: String| s@)) {
                Ok(c) => r matches Ok(a) && a.config@ == c,
                Err(e) => r matches Err(x) && x@ == e,
            },
    {
        let ghost targs = args@.map_values(|s: String| s@);
        let mut config: Option<String> = None;
        let mut i: usize = 0;
        while i < args.len()
            invariant
                targs == args@.map_values(|s: String| s@),
                i <= args@.len(),
                parse_args_from(targs, i as int, opt_text(config))
                    == parse_args(targs),
            ensures
                i <= args@.len(),
                parse_args_from(targs, i as int, opt_text(config)) == parse_args(targs),
                i >= args@.len() || (classify(targs[i as int]) is DashDash && i + 1 >= args@.len()),
            decreases args@.len() - i,
        {
            assert(targs[i as int] == args@[i as int]@);
            let (kind, text) = classify_arg(&args[i]);
            if kind == 0 {
                if i + 1 < args.len() {
                    assert(targs[i + 1] == args@[i + 1]@);
                    return Err(ArgsError::ExtraUnnamedArgument(args[i + 1].clone()));
                }
                break;
            } else if kind == 1 {
                return Err(ArgsError::ExtraUnnamedArgument(args[i].clone()));
            } else if kind == 2 {
                return Err(ArgsError::Help);
            } else if kind == 3 {
                return match text {
                    Some(s) => Err(ArgsError::UnknownNamedArgument(s)),
                    None => Err(ArgsError::Help),
                };
            } else if kind == 4 {
                if config.is_some() {
                    return Err(ArgsError::DuplicatedNamedArgument);
                }
                config = text;
                i = i + 1;
            } else {
                let has_value = if i + 1 < args.len() {
                    let nt = &args[i + 1];
                    assert(targs[i + 1] == nt@);
                    proof { reveal_strlit("-"); }
                    text_eq(nt, "-") || !(nt.as_str().unicode_len() > 0 && char_at(nt, 0) == '-')
                } else {
                    false
                };
                if !has_value {
                    return Err(ArgsError::MissingValue);
                }
                if config.is_some() {
                    return Err(ArgsError::DuplicatedNamedArgument);
                }
                config = Some(args[i + 1].clone());
                i = i + 2;
            }
        }
        match config {
            Some(c) => Ok(ServerArgs { config: c }),
            None => {
                let d = "config.toml".to_string();
                Ok(ServerArgs { config: d })
            },
        }
    }
}

} // verus!
