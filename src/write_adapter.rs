use vstd::prelude::*;

use crate::assembly::line_views;

verus! {

#[verifier::external_type_specification]
#[verifier::external_body]
pub struct ExIoError(std::io::Error);

#[verifier::external_type_specification]
#[verifier::external_body]
pub struct ExFmtError(std::fmt::Error);

/// Relies on std::fmt::Error's `Default`, which makes the (field-less) error value.
pub assume_specification[ <std::fmt::Error as core::default::Default>::default ]() -> std::fmt::Error;

/// Adapts a `std::io::Write` to `std::fmt::Write`.
pub struct IoWrite2FmtWrite<'a, W>(&'a mut W);

/// Adapts a `std::io::Write` to `std::fmt::Write`. Text writes always succeed:
/// the first I/O error stops further writing and is kept for `into_result`.
pub struct IoWrite2FmtWriteCatch<'a, W> {
    inner: &'a mut W,
    result: Result<(), std::io::Error>,
}

impl<'a, W> IoWrite2FmtWrite<'a, W> {
    /// The writer that text goes to.
    pub closed spec fn target(&self) -> W {
        *self.0
    }

    pub fn new(inner: &'a mut W) -> (r: Self)
        ensures
            r.target() == *old(inner),
    {
        IoWrite2FmtWrite(inner)
    }
}

impl<'a, W> IoWrite2FmtWriteCatch<'a, W> {
    /// Whether an I/O error has been met.
    pub closed spec fn failed(&self) -> bool {
        self.result is Err
    }

    /// The writer that text goes to.
    pub closed spec fn target(&self) -> W {
        *self.inner
    }

    pub fn new(inner: &'a mut W) -> (r: Self)
        ensures
            r.target() == *old(inner),
            !r.failed(),
    {
        IoWrite2FmtWriteCatch { inner, result: Ok(()) }
    }

    pub fn into_result(self) -> (r: Result<(), std::io::Error>)
        ensures
            r is Err <==> self.failed(),
    {
        self.result
    }
}

/// Relies on std::io::Write::write_all: it writes all of `s` or returns an error.
#[verifier::external_body]
fn write_all_text<W: std::io::Write>(w: &mut W, s: &str) -> (r: Result<(), std::io::Error>) {
    w.write_all(s.as_bytes())
}

impl<'a, W: std::io::Write> std::fmt::Write for IoWrite2FmtWrite<'a, W> {
    fn write_str(&mut self, s: &str) -> Result<(), std::fmt::Error> {
        match write_all_text(self.0, s) {
            Ok(()) => Ok(()),
            Err(_) => Err(<std::fmt::Error as core::default::Default>::default()),
        }
    }
}

impl<'a, W: std::io::Write> std::fmt::Write for IoWrite2FmtWriteCatch<'a, W> {
    /// Always `Ok`: an I/O error is kept, and once one is kept nothing more is
    /// written.
    fn write_str(&mut self, s: &str) -> (r: Result<(), std::fmt::Error>)
        ensures
            r is Ok,
            old(self).failed() ==> *final(self) == *old(self),
    {
        if self.result.is_ok() {
            let r = write_all_text(self.inner, s);
            if r.is_err() {
                self.result = r;
            }
        }
        Ok(())
    }
}

/// The text of `lines` with each line followed by a line feed.
pub open spec fn newline_terminated(lines: Seq<Seq<char>>) -> Seq<char>
    decreases lines.len(),
{
    if lines.len() == 0 {
        Seq::empty()
    } else {
        newline_terminated(lines.drop_last()) + lines.last() + seq!['\n']
    }
}

/// Joins `lines` into one text, each line followed by a line feed.
pub fn lines_text(lines: &Vec<String>) -> (r: String)
    ensures
        r@ == newline_terminated(line_views(lines@)),
{
    let ghost ls = line_views(lines@);
    let mut text = String::new();
    let mut i: usize = 0;
    while i < lines.len()
        invariant
            0 <= i <= lines@.len(),
            ls == line_views(lines@),
            text@ == newline_terminated(ls.subrange(0, i as int)),
        decreases lines.len() - i,
    {
        text.append(lines[i].as_str());
        text.append("\n");
        proof {
            reveal_strlit("\n");
        }
        assert(ls[i as int] == lines@[i as int]@);
        assert(ls.subrange(0, i + 1).drop_last() =~= ls.subrange(0, i as int));
        i = i + 1;
    }
    assert(ls.subrange(0, i as int) =~= ls);
    text
}

/// Writes each line followed by a line feed, as the one text `lines_text`
/// builds, and returns how many lines were written. With no lines nothing is
/// handed to the writer and the result is `Ok(0)`.
pub fn write_lines<W: std::io::Write>(write: &mut W, lines: &Vec<String>) -> (r: Result<
    usize,
    std::io::Error,
>)
    ensures
        r matches Ok(n) ==> n == lines@.len(),
        lines@.len() == 0 ==> (r matches Ok(0) && *final(write) == *old(write)),
        r is Err ==> lines@.len() > 0,
{
    if lines.len() == 0 {
        return Ok(0);
    }
    let text = lines_text(lines);
    match write_all_text(write, text.as_str()) {
        Ok(()) => Ok(lines.len()),
        Err(e) => Err(e),
    }
}

} // verus!
