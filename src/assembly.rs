use vstd::prelude::*;

use crate::error::ExtractError;

verus! {

#[verifier::external_type_specification]
#[verifier::external_body]
pub struct ExRegex(regex::Regex);

/// The pattern of a block header line, e.g. `0000000000000230 <add>:`.
pub const HEADER_PATTERN: &'static str = "^[0-9a-f]+ <(.+)>:$";

pub open spec fn is_lower_hex_digit(c: char) -> bool {
    ('0' <= c && c <= '9') || ('a' <= c && c <= 'f')
}

/// `line` reads as a header whose address is `line[..k]`: lower-case hex
/// digits, one space, `<`, a non-empty name without line breaks, then `>:`.
pub open spec fn header_at(line: Seq<char>, k: int) -> bool {
    &&& 1 <= k && k + 5 <= line.len()
    &&& forall|i: int| 0 <= i < k ==> is_lower_hex_digit(#[trigger] line[i])
    &&& line[k] == ' ' && line[k + 1] == '<'
    &&& line[line.len() - 2] == '>' && line[line.len() - 1] == ':'
    &&& forall|i: int| k + 2 <= i < line.len() - 2 ==> #[trigger] line[i] != '\n'
}

/// The symbol name that a header line announces, or `None` for any other line.
pub open spec fn header_symbol(line: Seq<char>) -> Option<Seq<char>> {
    if exists|k: int| header_at(line, k) {
        let k = choose|k: int| header_at(line, k);
        Some(line.subrange(k + 2, line.len() - 2))
    } else {
        None
    }
}

pub open spec fn opt_chars(s: Option<String>) -> Option<Seq<char>> {
    match s {
        Some(t) => Some(t@),
        None => None,
    }
}

pub open spec fn line_views(lines: Seq<String>) -> Seq<Seq<char>> {
    lines.map_values(|l: String| l@)
}

/// `i` is the position of the first line break of `s`.
pub open spec fn first_newline_at(s: Seq<char>, i: int) -> bool {
    &&& 0 <= i < s.len()
    &&& s[i] == '\n'
    &&& forall|j: int| 0 <= j < i ==> s[j] != '\n'
}

pub open spec fn strip_carriage_return(l: Seq<char>) -> Seq<char> {
    if l.len() > 0 && l.last() == '\r' {
        l.drop_last()
    } else {
        l
    }
}

/// The lines of a text: split at `\n` or `\r\n`, the last line's ending optional.
pub open spec fn text_lines(s: Seq<char>) -> Seq<Seq<char>>
    decreases s.len(),
{
    if s.len() == 0 {
        Seq::empty()
    } else if exists|i: int| first_newline_at(s, i) {
        let i = choose|i: int| first_newline_at(s, i);
        seq![strip_carriage_return(s.subrange(0, i))] + text_lines(s.subrange(i + 1, s.len() as int))
    } else {
        seq![s]
    }
}

/// Relies on str::lines: it splits at `\n` and at `\r\n`, and a final line
/// ending is optional.
#[verifier::external_body]
pub(crate) fn split_lines(text: &str) -> (r: Vec<String>)
    ensures
        line_views(r@) == text_lines(text@),
{
    text.lines().map(|l| l.to_string()).collect()
}

/// Recognises the header lines of disassembly blocks.
///
/// Its one field is always `HEADER_PATTERN` compiled: `new` is the only way to
/// build one.
pub struct HeaderMatcher {
    re: regex::Regex,
}

/// Relies on regex::Regex::new, which fails only on an invalid pattern or one
/// over the size limit; `HEADER_PATTERN` is neither.
#[verifier::external_body]
fn compile_pattern(pattern: &str) -> (r: Option<regex::Regex>)
    ensures
        pattern@ == HEADER_PATTERN@ ==> r is Some,
{
    regex::Regex::new(pattern).ok()
}

impl HeaderMatcher {
    /// Compiles the header pattern.
    pub fn new() -> (r: Option<HeaderMatcher>)
        ensures
            r is Some,
    {
        match compile_pattern(HEADER_PATTERN) {
            Some(re) => Some(HeaderMatcher { re }),
            None => None,
        }
    }

    /// Relies on regex::Regex::captures with `HEADER_PATTERN` (`^`, `$` anchor at the
    /// ends of the line; `.` matches any character but `\n`): group 1 is the name
    /// between `<` and `>:`.
    #[verifier::external_body]
    fn symbol_of(&self, line: &str) -> (r: Option<String>)
        ensures
            opt_chars(r) == header_symbol(line@),
    {
        self.re.captures(line).and_then(|c| c.get(1)).map(|m| m.as_str().to_string())
    }
}

/// Index of the first line at or after `from` that is a header for `name`;
/// `lines.len()` if there is none.
pub open spec fn first_header(lines: Seq<Seq<char>>, name: Seq<char>, from: int) -> int
    decreases lines.len() - from,
{
    if from >= lines.len() {
        lines.len() as int
    } else if header_symbol(lines[from]) == Some(name) {
        from
    } else {
        first_header(lines, name, from + 1)
    }
}

/// Index of the first empty line at or after `from`; `lines.len()` if there is none.
pub open spec fn run_end(lines: Seq<Seq<char>>, from: int) -> int
    decreases lines.len() - from,
{
    if from >= lines.len() {
        lines.len() as int
    } else if lines[from].len() == 0 {
        from
    } else {
        run_end(lines, from + 1)
    }
}

/// The instruction lines of symbol `name`: those after its first header line, up
/// to the first empty line or the end. Empty when no header names it.
pub open spec fn assembly_block(lines: Seq<Seq<char>>, name: Seq<char>) -> Seq<Seq<char>> {
    let h = first_header(lines, name, 0);
    if h >= lines.len() {
        Seq::empty()
    } else {
        lines.subrange(h + 1, run_end(lines, h + 1))
    }
}

proof fn lemma_first_header_bounds(lines: Seq<Seq<char>>, name: Seq<char>, from: int)
    requires
        0 <= from,
    ensures
        from <= first_header(lines, name, from) || from > lines.len(),
        first_header(lines, name, from) <= lines.len(),
    decreases lines.len() - from,
{
    if from < lines.len() && header_symbol(lines[from]) != Some(name) {
        lemma_first_header_bounds(lines, name, from + 1);
    }
}

/// Finds the instruction block of symbol `name` in the disassembly `lines`: the
/// first header for `name` wins, and the block runs to the next empty line.
pub fn find_block(lines: &Vec<String>, name: &String, matcher: &HeaderMatcher) -> (r: Result<
    Vec<String>,
    ExtractError,
>)
    ensures
        match r {
            Ok(block) => line_views(block@) == assembly_block(line_views(lines@), name@)
                && block@.len() > 0,
            Err(e) => e == ExtractError::FunctionNotEmitted && assembly_block(
                line_views(lines@),
                name@,
            ).len() == 0,
        },
{
    let ghost ls = line_views(lines@);
    let mut h: usize = 0;
    while h < lines.len()
        invariant
            ls == line_views(lines@),
            0 <= h <= lines.len(),
            first_header(ls, name@, 0) == first_header(ls, name@, h as int),
        ensures
            h < lines.len() ==> header_symbol(ls[h as int]) == Some(name@),
        decreases lines.len() - h,
    {
        assert(ls[h as int] == lines@[h as int]@);
        let found = match matcher.symbol_of(lines[h].as_str()) {
            Some(sym) => sym == *name,
            None => false,
        };
        if found {
            break;
        }
        h = h + 1;
    }
    proof {
        lemma_first_header_bounds(ls, name@, h as int);
    }
    if h >= lines.len() {
        return Err(ExtractError::FunctionNotEmitted);
    }
    assert(first_header(ls, name@, 0) == h);
    let mut block: Vec<String> = Vec::new();
    let mut i: usize = h + 1;
    while i < lines.len() && !lines[i].as_str().is_empty()
        invariant
            ls == line_views(lines@),
            first_header(ls, name@, 0) == h,
            h < lines.len(),
            h + 1 <= i <= lines.len(),
            run_end(ls, h + 1) == run_end(ls, i as int),
            line_views(block@) == ls.subrange(h + 1, i as int),
        decreases lines.len() - i,
    {
        assert(ls[i as int] == lines@[i as int]@);
        let ghost before = block@;
        let line = lines[i].clone();
        block.push(line);
        assert(block@ == before.push(line));
        assert(line_views(block@) =~= line_views(before).push(ls[i as int]));
        i = i + 1;
        assert(line_views(block@) =~= ls.subrange(h + 1, i as int));
    }
    if block.len() == 0 {
        return Err(ExtractError::FunctionNotEmitted);
    }
    Ok(block)
}

} // verus!
