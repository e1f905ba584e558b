//! Formatting and writing of completed trees.
//!
//! A [`Formatter`] turns a tree into a string; a [`LogWriter`] carries the
//! string to its destination. [`Printer`] combines the two into a
//! [`Processor`] that reports failures with the tree handed back.
use crate::pretty::{spec_fmt_tree, Pretty};
use crate::processor::{ProcessCause, ProcessReport, Processor, WithFallback};
use crate::tree::{wf_tree, Tree};
use std::io::Write;
use vstd::prelude::*;

verus! {

/// Error returned when a tree cannot be formatted.
#[derive(Debug, Clone, Copy)]
pub struct FormatError;

/// Error returned when a formatted tree cannot be written.
#[derive(Debug, Clone, Copy)]
pub struct WriteError;

/// A type that renders a well-formed tree into a string.
pub trait Formatter {
    /// The error returned when the tree cannot be rendered.
    type Error;

    /// Renders the tree, or returns an error.
    fn fmt(&self, tree: &Tree) -> Result<String, Self::Error>
        requires
            wf_tree(*tree),
    ;
}

impl Formatter for Pretty {
    type Error = FormatError;

    /// Renders the tree with the pretty renderer; this never fails.
    fn fmt(&self, tree: &Tree) -> (r: Result<String, FormatError>)
        ensures
            r matches Ok(s) && s@ == spec_fmt_tree(*tree, None, Seq::empty()),
    {
        Ok(self.fmt_string(tree))
    }
}

/// A destination that formatted trees are written to.
pub trait LogWriter {
    /// Writes the whole string, or reports that writing failed.
    fn write_str_all(&self, s: &str) -> Result<(), WriteError>;
}

/// A [`LogWriter`] that writes to the standard output stream.
#[derive(Debug, Clone, Copy)]
pub struct MakeStdout;

/// A [`LogWriter`] that writes to the standard error stream.
#[derive(Debug, Clone, Copy)]
pub struct MakeStderr;

/// Relies on `std::io::Write::write_all` on `std::io::stdout`: nothing is
/// assumed of the outcome.
#[verifier::external_body]
fn write_stdout_str(s: &str) -> Result<(), WriteError> {
    std::io::stdout().write_all(s.as_bytes()).map_err(|_| WriteError)
}

/// Relies on `std::io::Write::write_all` on `std::io::stderr`: nothing is
/// assumed of the outcome.
#[verifier::external_body]
pub(crate) fn write_stderr_str(s: &str) -> Result<(), WriteError> {
    std::io::stderr().write_all(s.as_bytes()).map_err(|_| WriteError)
}

impl LogWriter for MakeStdout {
    fn write_str_all(&self, s: &str) -> Result<(), WriteError> {
        write_stdout_str(s)
    }
}

impl LogWriter for MakeStderr {
    fn write_str_all(&self, s: &str) -> Result<(), WriteError> {
        write_stderr_str(s)
    }
}

/// Selects how the embedding application's JSON serializer lays a tree
/// out. The JSON projection itself — the data model with `total_nanos`
/// and `inner_nanos` exported as `nanos_total` and `nanos_nested` — is
/// produced by a generic serializer outside this crate; this value only
/// chooses between compact and pretty layout.
#[derive(Debug, Clone, Copy, PartialEq, Eq, Structural)]
pub struct Json {
    /// Whether the output is compact, on one line, rather than indented.
    pub compact: bool,
}

impl Json {
    /// Returns the configuration with the given layout.
    pub fn new(compact: bool) -> (r: Json)
        ensures
            r.compact == compact,
    {
        Json { compact }
    }

    /// Returns the compact, single-line layout.
    pub fn compact() -> (r: Json)
        ensures
            r.compact,
    {
        Json { compact: true }
    }

    /// Returns the indented, multi-line layout.
    pub fn pretty() -> (r: Json)
        ensures
            !r.compact,
    {
        Json { compact: false }
    }
}

/// A [`Processor`] that formats each tree and writes it to its
/// destination, on the calling thread.
pub struct Printer<F, W> {
    /// The formatter that renders each tree.
    pub formatter: F,
    /// The destination formatted trees are written to.
    pub make_writer: W,
}

/// A [`Printer`] that pretty-prints to the standard output stream.
pub type PrettyPrinter = Printer<Pretty, MakeStdout>;

impl<F: 'static + Formatter, W: 'static + LogWriter> Printer<F, W> {
    /// Returns a printer with the given formatter and destination.
    pub fn new(formatter: F, make_writer: W) -> (r: Printer<F, W>)
        ensures
            r.formatter == formatter,
            r.make_writer == make_writer,
    {
        Printer { formatter, make_writer }
    }

    /// Replaces the formatter.
    pub fn with_formatter<F2: 'static + Formatter>(self, formatter: F2) -> (r: Printer<F2, W>)
        ensures
            r.formatter == formatter,
            r.make_writer == self.make_writer,
    {
        Printer { formatter, make_writer: self.make_writer }
    }

    /// Replaces the destination.
    pub fn with_writer<W2: 'static + LogWriter>(self, make_writer: W2) -> (r: Printer<F, W2>)
        ensures
            r.formatter == self.formatter,
            r.make_writer == make_writer,
    {
        Printer { formatter: self.formatter, make_writer }
    }
}

impl Default for Printer<Pretty, MakeStdout> {
    /// Returns the printer that pretty-prints to the standard output
    /// stream.
    fn default() -> (r: Printer<Pretty, MakeStdout>)
        ensures
            r.formatter == Pretty,
            r.make_writer == MakeStdout,
    {
        Printer { formatter: Pretty, make_writer: MakeStdout }
    }
}

impl<F: 'static + Formatter, W: 'static + LogWriter> Processor for Printer<F, W> {
    /// Formats the tree and writes it. A failure hands the tree back and
    /// names its stage: `Format` exactly when the formatter itself
    /// declined the tree, `Write` when the destination failed afterwards.
    fn process(&self, tree: Tree) -> (r: Result<(), ProcessReport>)
        ensures
            r matches Err(rep) ==> rep.payload matches Some(t) && t == tree,
            r matches Err(rep) ==> rep.reason == ProcessCause::Format || rep.reason
                == ProcessCause::Write,
            r matches Err(rep) && rep.reason == ProcessCause::Format ==> exists|
                fr: Result<String, F::Error>,
            |
                #![auto]
                fr is Err && call_ensures(F::fmt, (&self.formatter, &tree), fr),
    {
        let fmt_result = self.formatter.fmt(&tree);
        proof {
            assert(call_ensures(F::fmt, (&self.formatter, &tree), fmt_result));
        }
        let formatted = match fmt_result {
            Ok(s) => s,
            Err(_) => {
                return Err(ProcessReport::new(Some(tree), ProcessCause::Format));
            },
        };
        match self.make_writer.write_str_all(formatted.as_str()) {
            Ok(()) => Ok(()),
            Err(_) => Err(ProcessReport::new(Some(tree), ProcessCause::Write)),
        }
    }
}

/// A [`Processor`] that formats and writes each tree on the thread that
/// closed the span, tying the cost of output to the instrumented code.
pub struct BlockingProcessor<F, W> {
    /// The formatter that renders each tree.
    pub formatter: F,
    /// The destination formatted trees are written to.
    pub make_writer: W,
}

impl<F: 'static + Formatter, W: 'static + LogWriter> BlockingProcessor<F, W> {
    /// Returns a blocking processor with the given formatter and
    /// destination.
    pub fn new(formatter: F, make_writer: W) -> (r: BlockingProcessor<F, W>)
        ensures
            r.formatter == formatter,
            r.make_writer == make_writer,
    {
        BlockingProcessor { formatter, make_writer }
    }
}

impl<F: 'static + Formatter, W: 'static + LogWriter> Processor for BlockingProcessor<F, W> {
    /// Formats the tree and writes it. A failure hands the tree back and
    /// names its stage: `Format` exactly when the formatter itself
    /// declined the tree, `Write` when the destination failed afterwards.
    fn process(&self, tree: Tree) -> (r: Result<(), ProcessReport>)
        ensures
            r matches Err(rep) ==> rep.payload matches Some(t) && t == tree,
            r matches Err(rep) ==> rep.reason == ProcessCause::Format || rep.reason
                == ProcessCause::Write,
            r matches Err(rep) && rep.reason == ProcessCause::Format ==> exists|
                fr: Result<String, F::Error>,
            |
                #![auto]
                fr is Err && call_ensures(F::fmt, (&self.formatter, &tree), fr),
    {
        let fmt_result = self.formatter.fmt(&tree);
        proof {
            assert(call_ensures(F::fmt, (&self.formatter, &tree), fmt_result));
        }
        let formatted = match fmt_result {
            Ok(s) => s,
            Err(_) => {
                return Err(ProcessReport::new(Some(tree), ProcessCause::Format));
            },
        };
        match self.make_writer.write_str_all(formatted.as_str()) {
            Ok(()) => Ok(()),
            Err(_) => Err(ProcessReport::new(Some(tree), ProcessCause::Write)),
        }
    }
}

/// A [`Processor`] that prints each formatted tree to the standard output
/// stream, intended for inspecting trees while testing.
pub struct TestCapturePrinter<F> {
    /// The formatter that renders each tree.
    pub formatter: F,
}

impl TestCapturePrinter<Pretty> {
    /// Returns a printer for test runs, with the pretty formatter.
    pub fn new() -> (r: TestCapturePrinter<Pretty>)
        ensures
            r.formatter == Pretty,
    {
        TestCapturePrinter { formatter: Pretty }
    }
}

impl<F: 'static + Formatter> Processor for TestCapturePrinter<F> {
    /// Formats the tree and prints it. A failure hands the tree back and
    /// names its stage: `Format` exactly when the formatter itself
    /// declined the tree, `Write` when printing failed afterwards.
    fn process(&self, tree: Tree) -> (r: Result<(), ProcessReport>)
        ensures
            r matches Err(rep) ==> rep.payload matches Some(t) && t == tree,
            r matches Err(rep) ==> rep.reason == ProcessCause::Format || rep.reason
                == ProcessCause::Write,
            r matches Err(rep) && rep.reason == ProcessCause::Format ==> exists|
                fr: Result<String, F::Error>,
            |
                #![auto]
                fr is Err && call_ensures(F::fmt, (&self.formatter, &tree), fr),
    {
        let fmt_result = self.formatter.fmt(&tree);
        proof {
            assert(call_ensures(F::fmt, (&self.formatter, &tree), fmt_result));
        }
        let formatted = match fmt_result {
            Ok(s) => s,
            Err(_) => {
                return Err(ProcessReport::new(Some(tree), ProcessCause::Format));
            },
        };
        match write_stdout_str(formatted.as_str()) {
            Ok(()) => Ok(()),
            Err(_) => Err(ProcessReport::new(Some(tree), ProcessCause::Write)),
        }
    }
}

/// Returns a processor that first attempts `primary`, and on a failure
/// that kept the tree pretty-prints it to the standard output stream.
pub fn with_stdout_fallback<P: Processor>(primary: P) -> (r: WithFallback<
    P,
    Printer<Pretty, MakeStdout>,
>)
    ensures
        r.primary == primary,
{
    WithFallback { primary, fallback: Printer { formatter: Pretty, make_writer: MakeStdout } }
}

/// Returns a processor that first attempts `primary`, and on a failure
/// that kept the tree pretty-prints it to the standard error stream.
pub fn with_stderr_fallback<P: Processor>(primary: P) -> (r: WithFallback<
    P,
    Printer<Pretty, MakeStderr>,
>)
    ensures
        r.primary == primary,
{
    WithFallback { primary, fallback: Printer { formatter: Pretty, make_writer: MakeStderr } }
}

} // verus!
