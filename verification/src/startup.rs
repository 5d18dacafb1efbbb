use vstd::prelude::*;

verus! {

/// The layout the control panel opens with.
#[derive(Clone, Copy, Debug, PartialEq, Eq, Structural)]
pub enum WindowMode {
    Dashboard,
    Widget,
    Invalid,
}

/// `c` with ASCII upper case letters mapped to lower case.
pub open spec fn ascii_lower(c: char) -> char {
    if 'A' <= c && c <= 'Z' {
        ((c as u32) + 32) as char
    } else {
        c
    }
}

/// Whether `a` and `b` are equal once ASCII letters are mapped to lower case.
pub open spec fn ascii_case_eq(a: Seq<char>, b: Seq<char>) -> bool {
    &&& a.len() == b.len()
    &&& forall|i: int| 0 <= i < a.len() ==> #[trigger] ascii_lower(a[i]) == ascii_lower(b[i])
}

/// `c` with ASCII upper case letters mapped to lower case.
fn to_ascii_lower(c: char) -> (r: char)
    ensures
        r == ascii_lower(c),
{
    if 'A' <= c && c <= 'Z' {
        ((c as u8) + 32) as char
    } else {
        c
    }
}

/// Whether `a` and `b` match ignoring ASCII case, as `str::eq_ignore_ascii_case`
/// decides: equal once `A`-`Z` are mapped to `a`-`z`.
fn eq_ignore_ascii_case(a: &str, b: &str) -> (r: bool)
    ensures
        r == ascii_case_eq(a@, b@),
{
    let n = a.unicode_len();
    let m = b.unicode_len();
    if n != m {
        return false;
    }
    let mut i: usize = 0;
    while i < n
        invariant
            n == a@.len(),
            n == b@.len(),
            i <= n,
            forall|j: int| 0 <= j < i ==> #[trigger] ascii_lower(a@[j]) == ascii_lower(b@[j]),
        decreases n - i,
    {
        if to_ascii_lower(a.get_char(i)) != to_ascii_lower(b.get_char(i)) {
            return false;
        }
        i = i + 1;
    }
    true
}

/// The index of the first element of `s` equal to `x`, or -1 where there is none.
pub open spec fn first_index(s: Seq<Seq<char>>, x: Seq<char>) -> int
    decreases s.len(),
{
    if s.len() == 0 {
        -1
    } else {
        let r = first_index(s.drop_last(), x);
        if r >= 0 {
            r
        } else if s.last() == x {
            s.len() - 1
        } else {
            -1
        }
    }
}

proof fn lemma_first_index(s: Seq<Seq<char>>, x: Seq<char>)
    ensures
        -1 <= first_index(s, x) < s.len(),
        first_index(s, x) >= 0 ==> s[first_index(s, x)] == x,
        forall|j: int| 0 <= j < first_index(s, x) ==> #[trigger] s[j] != x,
        first_index(s, x) == -1 ==> forall|j: int| 0 <= j < s.len() ==> #[trigger] s[j] != x,
    decreases s.len(),
{
    if s.len() > 0 {
        let t = s.drop_last();
        lemma_first_index(t, x);
        assert forall|j: int| 0 <= j < t.len() implies #[trigger] t[j] == s[j] by {}
        let r = first_index(t, x);
        if r >= 0 {
            assert forall|j: int| 0 <= j < r implies #[trigger] s[j] != x by {
                assert(t[j] == s[j]);
            }
        } else {
            assert forall|j: int| 0 <= j < s.len() - 1 implies #[trigger] s[j] != x by {
                assert(t[j] == s[j]);
            }
        }
    }
}

/// The command line flag that selects the start layout.
pub open spec fn start_flag() -> Seq<char> {
    seq!['-', '-', 's', 't', 'a', 'r', 't', '-', 'a', 's']
}

/// The start layout that the command line `args` asks for: the argument after the
/// first `--start-as` names it, `dashboard` or `widget` in any ASCII case, anything
/// else being invalid; without that flag, or with nothing after it, the dashboard.
pub open spec fn start_mode_spec(args: Seq<Seq<char>>) -> WindowMode {
    let i = first_index(args, start_flag());
    if i >= 0 && i + 1 < args.len() {
        let a = args[i + 1];
        if ascii_case_eq(a, seq!['d', 'a', 's', 'h', 'b', 'o', 'a', 'r', 'd']) {
            WindowMode::Dashboard
        } else if ascii_case_eq(a, seq!['w', 'i', 'd', 'g', 'e', 't']) {
            WindowMode::Widget
        } else {
            WindowMode::Invalid
        }
    } else {
        WindowMode::Dashboard
    }
}

/// The start layout that the command line `args` (program name first) asks for.
pub fn start_mode(args: &Vec<String>) -> (m: WindowMode)
    ensures
        m == start_mode_spec(args@.map_values(|a: String| a@)),
{
    let ghost views = args@.map_values(|a: String| a@);
    let flag = "--start-as";
    let dashboard = "dashboard";
    let widget = "widget";
    proof {
        reveal_strlit("--start-as");
        reveal_strlit("dashboard");
        reveal_strlit("widget");
        assert(flag@ =~= start_flag());
        assert(dashboard@ =~= seq!['d', 'a', 's', 'h', 'b', 'o', 'a', 'r', 'd']);
        assert(widget@ =~= seq!['w', 'i', 'd', 'g', 'e', 't']);
        lemma_first_index(views, start_flag());
    }
    let flag_owned = flag.to_owned();
    let n = args.len();
    let mut i: usize = 0;
    while i < n
        invariant
            n == args@.len(),
            views == args@.map_values(|a: String| a@),
            flag_owned@ == start_flag(),
            dashboard@ == seq!['d', 'a', 's', 'h', 'b', 'o', 'a', 'r', 'd'],
            widget@ == seq!['w', 'i', 'd', 'g', 'e', 't'],
            0 <= i <= n,
            forall|j: int| 0 <= j < i ==> #[trigger] views[j] != start_flag(),
        decreases n - i,
    {
        if args[i] == flag_owned {
            assert(views[i as int] == start_flag());
            proof {
                lemma_first_index(views, start_flag());
            }
            assert(first_index(views, start_flag()) == i as int);
            if i + 1 < n {
                let arg = args[i + 1].as_str();
                assert(arg@ == views[i + 1]);
                if eq_ignore_ascii_case(arg, dashboard) {
                    return WindowMode::Dashboard;
                } else if eq_ignore_ascii_case(arg, widget) {
                    return WindowMode::Widget;
                } else {
                    return WindowMode::Invalid;
                }
            }
            return WindowMode::Dashboard;
        }
        assert(views[i as int] == args@[i as int]@);
        i = i + 1;
    }
    proof {
        lemma_first_index(views, start_flag());
        if first_index(views, start_flag()) >= 0 {
            let k = first_index(views, start_flag());
            assert(views[k] == start_flag());
        }
    }
    WindowMode::Dashboard
}

} // verus!
