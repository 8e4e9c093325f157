use vstd::prelude::*;
use vstd::string::StrSliceExecFns;
use vstd::string::StringExecFns;

verus! {

/// One violated schema constraint: where in the document it was found, as a
/// pointer such as `/a/b/0`, with the engine's title and optional detail.
#[derive(Debug, PartialEq)]
pub struct Violation {
    pub path: String,
    pub title: String,
    pub detail: Option<String>,
}

/// The text that stands for one character of a pointer: a separator becomes
/// ` > `, any other character stands for itself.
pub open spec fn piece(c: char) -> Seq<char> {
    if c == '/' {
        seq![' ', '>', ' ']
    } else {
        seq![c]
    }
}

/// `s` with every `/` written as ` > `.
pub open spec fn separated(s: Seq<char>) -> Seq<char>
    decreases s.len(),
{
    if s.len() == 0 {
        Seq::empty()
    } else {
        separated(s.drop_last()) + piece(s.last())
    }
}

/// How a pointer is shown to the user: without its leading character, with
/// every `/` written as ` > `.
pub open spec fn rendered_path(p: Seq<char>) -> Seq<char> {
    if p.len() == 0 {
        Seq::empty()
    } else {
        separated(p.drop_first())
    }
}

/// The message of a violation: its detail where there is one, else its title.
pub open spec fn message_of(v: Violation) -> Seq<char> {
    match v.detail {
        Some(d) => d@,
        None => v.title@,
    }
}

/// The line that reports a violation of the base configuration file.
pub open spec fn report_line(v: Violation) -> Seq<char> {
    "`tauri.conf.json` error on `"@ + rendered_path(v.path@) + "`: "@ + message_of(v)
}

/// Renders a pointer such as `/a/b/0` as `a > b > 0`.
pub fn render_path(path: &str) -> (r: String)
    ensures
        r@ == rendered_path(path@),
{
    let n = path.unicode_len();
    let mut out = String::new();
    if n == 0 {
        return out;
    }
    let ghost rest = path@.drop_first();
    let mut i: usize = 1;
    while i < n
        invariant
            1 <= i <= n,
            n == path@.len(),
            rest == path@.drop_first(),
            out@ == separated(rest.subrange(0, i - 1)),
        decreases n - i,
    {
        let c = path.get_char(i);
        if c == '/' {
            out.append(" > ");
        } else {
            out.append(path.substring_char(i, i + 1));
        }
        proof {
            reveal_strlit(" > ");
            let s = rest.subrange(0, i as int);
            assert(s.drop_last() =~= rest.subrange(0, i - 1));
            assert(s.last() == c);
            assert(path@.subrange(i as int, i + 1) =~= seq![c]);
            assert(out@ =~= separated(s));
        }
        i += 1;
    }
    assert(rest.subrange(0, n - 1) =~= rest);
    out
}

impl Violation {
    /// The violation's detail where there is one, else its title.
    pub fn message(&self) -> (r: String)
        ensures
            r@ == message_of(*self),
    {
        match &self.detail {
            Some(d) => d.clone(),
            None => self.title.clone(),
        }
    }

    /// The line that reports this violation to the user.
    pub fn report_line(&self) -> (r: String)
        ensures
            r@ == report_line(*self),
    {
        let mut line = String::new();
        line.append("`tauri.conf.json` error on `");
        let path = render_path(self.path.as_str());
        line.append(path.as_str());
        line.append("`: ");
        let msg = self.message();
        line.append(msg.as_str());
        proof {
            assert(line@ =~= report_line(*self));
        }
        line
    }
}

/// One report line for each violation, in order.
pub fn report(violations: &Vec<Violation>) -> (r: Vec<String>)
    ensures
        r@.len() == violations@.len(),
        forall|i: int| 0 <= i < r@.len() ==> (#[trigger] r@[i])@ == report_line(violations@[i]),
{
    let mut lines: Vec<String> = Vec::new();
    let mut i: usize = 0;
    while i < violations.len()
        invariant
            i <= violations@.len(),
            lines@.len() == i,
            forall|j: int| 0 <= j < i ==> (#[trigger] lines@[j])@ == report_line(violations@[j]),
        decreases violations@.len() - i,
    {
        lines.push(violations[i].report_line());
        i += 1;
    }
    lines
}

} // verus!
