use vstd::prelude::*;
use vstd::string::*;
use crate::room::{console_named, SelectedConsole};

verus! {

/// What the command line asks for: the console wired at start, where to save
/// a screenshot, and whether to run the circuit test without a window.
#[derive(Debug, Clone, PartialEq, Eq)]
pub struct LaunchOptions {
    pub console: SelectedConsole,
    pub screenshot: Option<String>,
    pub headless: bool,
}

/// `s` starts with `p`.
pub open spec fn has_prefix(s: Seq<char>, p: Seq<char>) -> bool {
    p.len() <= s.len() && s.take(p.len() as int) == p
}

/// `s` with every leading repetition of the non-empty `p` taken off.
pub open spec fn trim_prefix(s: Seq<char>, p: Seq<char>) -> Seq<char>
    decreases s.len(),
{
    if p.len() > 0 && has_prefix(s, p) {
        trim_prefix(s.skip(p.len() as int), p)
    } else {
        s
    }
}

/// The console and screenshot after reading the first `n` arguments.
/// `--console NAME` (or `-c NAME`) and `--console=NAME` choose the console,
/// `--screenshot PATH` (or `-s PATH`) and `--screenshot=PATH` the screenshot;
/// a later choice wins, and a flag that ends the line is ignored.
pub open spec fn launch_choice(args: Seq<Seq<char>>, n: int) -> (SelectedConsole, Option<Seq<char>>)
    decreases n,
{
    if n <= 0 {
        (SelectedConsole::Nintendo64, None)
    } else {
        let (c, shot) = launch_choice(args, n - 1);
        let i = n - 1;
        let a = args[i];
        if (a == "--console"@ || a == "-c"@) && i + 1 < args.len() {
            (console_named(args[i + 1]), shot)
        } else if has_prefix(a, "--console="@) {
            (console_named(trim_prefix(a, "--console="@)), shot)
        } else if (a == "--screenshot"@ || a == "-s"@) && i + 1 < args.len() {
            (c, Some(args[i + 1]))
        } else if has_prefix(a, "--screenshot="@) {
            (c, Some(trim_prefix(a, "--screenshot="@)))
        } else {
            (c, shot)
        }
    }
}

/// The arguments by their contents.
pub open spec fn arg_views(args: Seq<String>) -> Seq<Seq<char>> {
    args.map_values(|a: String| a@)
}

fn starts_with(s: &str, p: &str) -> (r: bool)
    ensures
        r == has_prefix(s@, p@),
{
    let n: usize = s.unicode_len();
    let m: usize = p.unicode_len();
    if m > n {
        return false;
    }
    let mut i: usize = 0;
    while i < m
        invariant
            n == s@.len(),
            m == p@.len(),
            m <= n,
            i <= m,
            forall|j: int| 0 <= j < i ==> s@[j] == p@[j],
        decreases m - i,
    {
        if s.get_char(i) != p.get_char(i) {
            proof {
                assert(s@.take(m as int)[i as int] != p@[i as int]);
            }
            return false;
        }
        i = i + 1;
    }
    proof {
        assert(s@.take(m as int) =~= p@);
    }
    true
}

fn trimmed(s: &str, p: &str) -> (r: String)
    requires
        p@.len() > 0,
    ensures
        r@ == trim_prefix(s@, p@),
{
    let m: usize = p.unicode_len();
    let mut rest: &str = s;
    while starts_with(rest, p)
        invariant
            m == p@.len(),
            m > 0,
            trim_prefix(rest@, p@) == trim_prefix(s@, p@),
        decreases rest@.len(),
    {
        let n: usize = rest.unicode_len();
        let next = rest.substring_char(m, n);
        proof {
            assert(next@ =~= rest@.skip(m as int));
        }
        rest = next;
    }
    String::from_str(rest)
}

fn is_arg(a: &String, lit: &str) -> (r: bool)
    ensures
        r == (a@ == lit@),
{
    let l = String::from_str(lit);
    a.eq(&l)
}

/// Reads the command line (without the program name being special).
pub fn parse_launch_args(args: &Vec<String>) -> (r: LaunchOptions)
    ensures
        r.console == launch_choice(arg_views(args@), args@.len() as int).0,
        match r.screenshot {
            Some(s) => launch_choice(arg_views(args@), args@.len() as int).1 == Some(s@),
            None => launch_choice(arg_views(args@), args@.len() as int).1 is None,
        },
        r.headless == exists|i: int|
            0 <= i < args@.len() && (#[trigger] args@[i]@ == "--headless"@ || args@[i]@ == "--test-circuit"@),
{
    let ghost views = arg_views(args@);
    let mut console = SelectedConsole::Nintendo64;
    let mut screenshot: Option<String> = None;
    let mut headless = false;
    let n: usize = args.len();
    let mut i: usize = 0;
    while i < n
        invariant
            n == args@.len(),
            views == arg_views(args@),
            i <= n,
            console == launch_choice(views, i as int).0,
            match screenshot {
                Some(s) => launch_choice(views, i as int).1 == Some(s@),
                None => launch_choice(views, i as int).1 is None,
            },
            headless == exists|j: int|
                0 <= j < i && (#[trigger] args@[j]@ == "--headless"@ || args@[j]@ == "--test-circuit"@),
        decreases n - i,
    {
        let a = &args[i];
        proof {
            assert(views[i as int] == a@);
        }
        if (is_arg(a, "--console") || is_arg(a, "-c")) && i + 1 < n {
            proof {
                assert(views[i + 1] == args@[i + 1]@);
            }
            console = SelectedConsole::from_str_name(args[i + 1].as_str());
        } else if starts_with(a.as_str(), "--console=") {
            proof {
                reveal_strlit("--console=");
            }
            let v = trimmed(a.as_str(), "--console=");
            console = SelectedConsole::from_str_name(v.as_str());
        } else if (is_arg(a, "--screenshot") || is_arg(a, "-s")) && i + 1 < n {
            proof {
                assert(views[i + 1] == args@[i + 1]@);
            }
            screenshot = Some(args[i + 1].clone());
        } else if starts_with(a.as_str(), "--screenshot=") {
            proof {
                reveal_strlit("--screenshot=");
            }
            screenshot = Some(trimmed(a.as_str(), "--screenshot="));
        }
        if is_arg(a, "--headless") || is_arg(a, "--test-circuit") {
            headless = true;
        }
        i = i + 1;
    }
    LaunchOptions { console, screenshot, headless }
}

} // verus!
