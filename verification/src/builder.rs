//! Builder for configuring the blocking pipeline.
//!
//! A [`LayerBuilder`] collects a formatter, a writing destination, and a
//! tag parser, and finishes into a [`ForestLayer`] whose processor formats
//! and writes each completed tree on the calling thread.
use crate::layer::ForestLayer;
use crate::pretty::Pretty;
use crate::printer::{BlockingProcessor, Formatter, LogWriter, MakeStdout};
use crate::tag::{NoTag, TagParser};
use vstd::prelude::*;

verus! {

/// Collects the configuration of a blocking pipeline: how trees are
/// formatted, where they are written, and how events are tagged.
pub struct LayerBuilder<F, W, T> {
    /// The formatter that renders each tree.
    pub formatter: F,
    /// The destination formatted trees are written to.
    pub make_writer: W,
    /// The parser that may supply custom tags for events.
    pub tag: T,
}

/// Begins a configuration: pretty formatting, the standard output stream,
/// and no custom tags.
pub fn builder() -> (r: LayerBuilder<Pretty, MakeStdout, NoTag>)
    ensures
        r.formatter == Pretty,
        r.make_writer == MakeStdout,
{
    LayerBuilder { formatter: Pretty, make_writer: MakeStdout, tag: NoTag }
}

impl<F: 'static + Formatter, W: 'static + LogWriter, T: TagParser> LayerBuilder<F, W, T> {
    /// Applies pretty formatting.
    pub fn pretty(self) -> (r: LayerBuilder<Pretty, W, T>)
        ensures
            r.formatter == Pretty,
            r.make_writer == self.make_writer,
            r.tag == self.tag,
    {
        LayerBuilder { formatter: Pretty, make_writer: self.make_writer, tag: self.tag }
    }

    /// Applies the given formatter.
    pub fn with_formatter<F2: 'static + Formatter>(self, formatter: F2) -> (r: LayerBuilder<
        F2,
        W,
        T,
    >)
        ensures
            r.formatter == formatter,
            r.make_writer == self.make_writer,
            r.tag == self.tag,
    {
        LayerBuilder { formatter, make_writer: self.make_writer, tag: self.tag }
    }

    /// Applies the given writing destination.
    pub fn with_writer<W2: 'static + LogWriter>(self, make_writer: W2) -> (r: LayerBuilder<
        F,
        W2,
        T,
    >)
        ensures
            r.formatter == self.formatter,
            r.make_writer == make_writer,
            r.tag == self.tag,
    {
        LayerBuilder { formatter: self.formatter, make_writer, tag: self.tag }
    }

    /// Applies the given tag parser.
    pub fn with_tag<T2: TagParser>(self, tag: T2) -> (r: LayerBuilder<F, W, T2>)
        ensures
            r.formatter == self.formatter,
            r.make_writer == self.make_writer,
            r.tag == tag,
    {
        LayerBuilder { formatter: self.formatter, make_writer: self.make_writer, tag }
    }

    /// Finishes the configuration into a layer that formats and writes
    /// each completed tree on the thread that closed it.
    pub fn blocking_layer(self) -> (r: ForestLayer<BlockingProcessor<F, W>, T>)
        ensures
            r.processor.formatter == self.formatter,
            r.processor.make_writer == self.make_writer,
            r.tag == self.tag,
            r.reg().len() == 0,
            r.wf(),
    {
        ForestLayer::new(BlockingProcessor::new(self.formatter, self.make_writer), self.tag)
    }
}

} // verus!
