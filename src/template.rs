//! Project templates and the README text that describes them.

use crate::error::Error;
use crate::text::{trim_bounds, trimmed};
use vstd::prelude::*;
use vstd::string::StringExecFns;

verus! {

/// Description given to a template whose README yields none.
pub const DEFAULT_DESCRIPTION: &'static str = "No description available";

/// End of the line that starts at `i`: the index of the next `'\n'` at or
/// after `i`, or the length of `s`.
pub open spec fn line_end(s: Seq<char>, i: int) -> int
    decreases s.len() - i,
{
    if i < 0 || i >= s.len() {
        s.len() as int
    } else if s[i] == '\n' {
        i
    } else {
        line_end(s, i + 1)
    }
}

/// The line that starts at `i`, without its line ending (`"\n"` or
/// `"\r\n"`).
pub open spec fn line_at(s: Seq<char>, i: int) -> Seq<char> {
    let e = line_end(s, i);
    if e > i && e < s.len() && s[e - 1] == '\r' {
        s.subrange(i, e - 1)
    } else {
        s.subrange(i, e)
    }
}

/// Where the line after the one at `i` starts.
pub open spec fn next_line(s: Seq<char>, i: int) -> int {
    line_end(s, i) + 1
}

/// The line at `i` holds only white space.
pub open spec fn blank_line(s: Seq<char>, i: int) -> bool {
    trimmed(line_at(s, i)).len() == 0
}

/// The line at `i` is a Markdown heading: its first non-space character is
/// `#`.
pub open spec fn heading_line(s: Seq<char>, i: int) -> bool {
    trimmed(line_at(s, i)).len() > 0 && trimmed(line_at(s, i))[0] == '#'
}

proof fn line_end_bounds(s: Seq<char>, i: int)
    requires
        0 <= i <= s.len(),
    ensures
        i <= line_end(s, i) <= s.len(),
        line_end(s, i) < s.len() ==> s[line_end(s, i)] == '\n',
    decreases s.len() - i,
{
    if i < s.len() && s[i] != '\n' {
        line_end_bounds(s, i + 1);
    }
}

/// Start of the first line at or after the line at `i` that is neither
/// blank nor a heading, or the length of `s`.
pub open spec fn body_start(s: Seq<char>, i: int) -> int
    decreases s.len() + 1 - i,
{
    if i < 0 || i >= s.len() {
        s.len() as int
    } else if blank_line(s, i) || heading_line(s, i) {
        if i < next_line(s, i) <= s.len() + 1 {
            body_start(s, next_line(s, i))
        } else {
            s.len() as int
        }
    } else {
        i
    }
}

/// The lines from `i` up to the next blank line, joined by single spaces.
pub open spec fn paragraph_from(s: Seq<char>, i: int) -> Seq<char>
    decreases s.len() - i,
{
    if i < 0 || i >= s.len() || blank_line(s, i) || next_line(s, i) <= i {
        Seq::empty()
    } else {
        let k = next_line(s, i);
        if k < s.len() && !blank_line(s, k) {
            line_at(s, i) + " "@ + paragraph_from(s, k)
        } else {
            line_at(s, i)
        }
    }
}

/// The first paragraph of Markdown text: leading blank lines and headings
/// are skipped, the following lines up to a blank line are joined by
/// spaces, and the result is trimmed. `None` when that leaves nothing.
pub open spec fn first_paragraph(s: Seq<char>) -> Option<Seq<char>> {
    let t = trimmed(paragraph_from(s, body_start(s, 0)));
    if t.len() == 0 {
        None
    } else {
        Some(t)
    }
}

/// End of the line at `i` (see `line_end`).
fn find_line_end(s: &str, n: usize, i: usize) -> (r: usize)
    requires
        n == s@.len(),
        i <= n,
    ensures
        r == line_end(s@, i as int),
        i <= r <= n,
{
    proof {
        line_end_bounds(s@, i as int);
    }
    let mut e = i;
    while e < n && s.get_char(e) != '\n'
        invariant
            n == s@.len(),
            i <= e <= n,
            line_end(s@, i as int) == line_end(s@, e as int),
        decreases n - e,
    {
        e = e + 1;
    }
    e
}

/// The line at `i` (see `line_at`), and where it ends.
fn line_of(s: &str, n: usize, i: usize) -> (r: (&str, usize))
    requires
        n == s@.len(),
        i < n,
    ensures
        r.0@ == line_at(s@, i as int),
        r.1 == line_end(s@, i as int),
        i <= r.1 <= n,
{
    let e = find_line_end(s, n, i);
    let stop = if e > i && e < n && s.get_char(e - 1) == '\r' {
        e - 1
    } else {
        e
    };
    (s.substring_char(i, stop), e)
}

/// Whether the trimmed line is empty, and whether it opens with `#`.
fn classify_line(line: &str) -> (r: (bool, bool))
    ensures
        r.0 == (trimmed(line@).len() == 0),
        r.1 == (trimmed(line@).len() > 0 && trimmed(line@)[0] == '#'),
{
    let (a, b) = trim_bounds(line);
    if a < b {
        (false, line.get_char(a) == '#')
    } else {
        (true, false)
    }
}

/// Extracts the first paragraph of Markdown text (see `first_paragraph`).
pub fn extract_first_paragraph(content: &str) -> (r: Option<String>)
    ensures
        r is None <==> first_paragraph(content@) is None,
        r is Some ==> r->0@ == first_paragraph(content@)->0,
{
    let ghost s = content@;
    let n = content.unicode_len();
    let mut i: usize = 0;
    let mut found = false;
    while !found && i < n
        invariant
            n == s.len(),
            s == content@,
            i <= n + 1,
            body_start(s, 0) == body_start(s, i as int),
            found ==> i < n && !blank_line(s, i as int) && !heading_line(s, i as int),
        decreases n + 1 - i + (if found { 0int } else { 1int }),
    {
        let (line, end) = line_of(content, n, i);
        proof {
            line_end_bounds(s, i as int);
        }
        let (blank, heading) = classify_line(line);
        if !blank && !heading {
            found = true;
        } else {
            assert(body_start(s, i as int) == body_start(s, end + 1));
            if end < n {
                i = end + 1;
            } else {
                i = n;
            }
        }
    }
    let mut out = String::new();
    if found {
        let mut j = i;
        let mut more = true;
        while more
            invariant
                n == s.len(),
                s == content@,
                j < n,
                !blank_line(s, j as int),
                more ==> out@ + paragraph_from(s, j as int) == paragraph_from(s, i as int),
                !more ==> out@ == paragraph_from(s, i as int),
            decreases (if more { n - j + 1 } else { 0 }),
        {
            let (line, end) = line_of(content, n, j);
            let ghost before = out@;
            out.append(line);
            more = false;
            if end < n - 1 {
                let next = end + 1;
                let (next_text, _) = line_of(content, n, next);
                let (blank, _) = classify_line(next_text);
                if !blank {
                    out.append(" ");
                    proof {
                        reveal_strlit(" ");
                        assert(out@ + paragraph_from(s, next as int) =~= before + (line_at(
                            s,
                            j as int,
                        ) + " "@ + paragraph_from(s, next as int)));
                    }
                    j = next;
                    more = true;
                }
            }
        }
        assert(body_start(s, i as int) == i);
    } else {
        assert(body_start(s, i as int) == n);
        assert(paragraph_from(s, n as int) =~= Seq::<char>::empty());
        assert(out@ =~= paragraph_from(s, n as int));
    }
    let (a, b) = trim_bounds(out.as_str());
    if a < b {
        Some(String::from_str(out.as_str().substring_char(a, b)))
    } else {
        None
    }
}

} // verus!

verus! {

/// A project template found in the examples of the SDK repository.
pub struct Template {
    name: String,
    description: String,
    path: String,
}

/// Directories whose name starts with `.` or `_` are not templates.
pub open spec fn hidden_name(name: Seq<char>) -> bool {
    name.len() > 0 && (name[0] == '.' || name[0] == '_')
}

/// Whether a directory name marks a hidden or internal directory.
pub fn is_hidden(name: &str) -> (r: bool)
    ensures
        r == hidden_name(name@),
{
    if name.unicode_len() == 0 {
        return false;
    }
    let c = name.get_char(0);
    c == '.' || c == '_'
}

/// The template name from the last component of its directory path, as
/// text; `None` when the path has no such component or it is not UTF-8.
pub fn extract_valid_name(file_name: Option<String>) -> (r: Result<String, Error>)
    ensures
        file_name is Some ==> r == Ok::<String, Error>(file_name->0),
        file_name is None ==> r matches Err(Error::Initialization(_)),
{
    match file_name {
        Some(name) => Ok(name),
        None => Err(Error::Initialization(String::from_str("Invalid template name"))),
    }
}

/// The description a template gets from its README text (`None` when it
/// has no readable README).
pub open spec fn description_of(readme: Option<String>) -> Seq<char> {
    if readme is Some && first_paragraph(readme->0@) is Some {
        first_paragraph(readme->0@)->0
    } else {
        DEFAULT_DESCRIPTION@
    }
}

/// The first paragraph of the README, or the default description.
pub fn read_description(readme: Option<String>) -> (r: String)
    ensures
        r@ == description_of(readme),
{
    let found = match &readme {
        Some(content) => extract_first_paragraph(content.as_str()),
        None => None,
    };
    match found {
        Some(d) => d,
        None => String::from_str(DEFAULT_DESCRIPTION),
    }
}

impl Template {
    /// The template in directory `path`, whose last component reads as
    /// `file_name` and whose README holds `readme`. Hidden directories give
    /// `None`; a path without a readable name is an error.
    pub fn from_path(path: String, file_name: Option<String>, readme: Option<String>) -> (r: Result<
        Option<Template>,
        Error,
    >)
        ensures
            file_name is None ==> r matches Err(Error::Initialization(_)),
            file_name is Some && hidden_name(file_name->0@) ==> r matches Ok(None),
            file_name is Some && !hidden_name(file_name->0@) ==> (r matches Ok(Some(t))
                && t.spec_name() == file_name->0@ && t.spec_description() == description_of(readme)
                && t.spec_path() == path@),
    {
        let name = extract_valid_name(file_name)?;
        if is_hidden(name.as_str()) {
            return Ok(None);
        }
        Ok(Some(Template { description: read_description(readme), path, name }))
    }

    pub closed spec fn spec_name(&self) -> Seq<char> {
        self.name@
    }

    pub closed spec fn spec_description(&self) -> Seq<char> {
        self.description@
    }

    pub closed spec fn spec_path(&self) -> Seq<char> {
        self.path@
    }

    /// The template's name.
    pub fn name(&self) -> (r: &str)
        ensures
            r@ == self.spec_name(),
    {
        self.name.as_str()
    }

    /// The template's description.
    pub fn description(&self) -> (r: &str)
        ensures
            r@ == self.spec_description(),
    {
        self.description.as_str()
    }

    /// The template's directory.
    pub fn path(&self) -> (r: &str)
        ensures
            r@ == self.spec_path(),
    {
        self.path.as_str()
    }
}

} // verus!
