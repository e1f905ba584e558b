//! Categorical display tags for events.
//!
//! A [`Tag`] carries the icon and label printed in front of an event's
//! message. One is either supplied by a [`TagParser`] or derived from the
//! event's [`Level`], each level mapping to a canonical icon and label.
use crate::level::Level;
use vstd::prelude::*;

verus! {

/// A display category for an event: an icon, a label, and an optional prefix.
///
/// Rendered as `icon [prefix.label]`, or `icon [label]` when there is no
/// prefix. Immutable once created.
#[derive(Debug, Clone, Copy, Hash, PartialEq, Eq)]
pub struct Tag {
    /// Optional prefix in front of the label, such as a subsystem name.
    pub prefix: Option<&'static str>,
    /// The label of the category.
    pub suffix: &'static str,
    /// An icon, typically an emoji, that represents the category.
    pub icon: char,
}

/// The canonical icon of a severity level.
pub open spec fn spec_level_icon(l: Level) -> char {
    match l {
        Level::Trace => '📍',
        Level::Debug => '🐛',
        Level::Info => 'ｉ',
        Level::Warn => '🚧',
        Level::Error => '🚨',
    }
}

/// The canonical label of a severity level.
pub open spec fn spec_level_label(l: Level) -> Seq<char> {
    match l {
        Level::Trace => "trace"@,
        Level::Debug => "debug"@,
        Level::Info => "info"@,
        Level::Warn => "warn"@,
        Level::Error => "error"@,
    }
}

/// The text between the brackets of a rendered tag: `prefix.label`, or only
/// the label when there is no prefix.
pub open spec fn spec_tag_display(t: Tag) -> Seq<char> {
    match t.prefix {
        Some(p) => p@ + "."@ + t.suffix@,
        None => t.suffix@,
    }
}

impl Tag {
    /// Returns a tag with the given prefix, label, and icon.
    pub fn new(prefix: Option<&'static str>, suffix: &'static str, icon: char) -> (r: Tag)
        ensures
            r == (Tag { prefix, suffix, icon }),
    {
        Tag { prefix, suffix, icon }
    }

    /// Returns the tag that stands for a severity level: the level's
    /// canonical icon and label, under the given prefix.
    pub fn new_from_level(prefix: Option<&'static str>, level: Level) -> (r: Tag)
        ensures
            r.prefix == prefix,
            r.suffix@ == spec_level_label(level),
            r.icon == spec_level_icon(level),
    {
        match level {
            Level::Trace => Tag::new(prefix, "trace", '📍'),
            Level::Debug => Tag::new(prefix, "debug", '🐛'),
            Level::Info => Tag::new(prefix, "info", 'ｉ'),
            Level::Warn => Tag::new(prefix, "warn", '🚧'),
            Level::Error => Tag::new(prefix, "error", '🚨'),
        }
    }

    /// Returns the tag's icon.
    pub fn icon(&self) -> (r: char)
        ensures
            r == self.icon,
    {
        self.icon
    }

    /// Returns the text between the brackets of the rendered tag:
    /// `prefix.label`, or only the label when there is no prefix.
    pub fn display_string(&self) -> (r: String)
        ensures
            r@ == spec_tag_display(*self),
    {
        match self.prefix {
            Some(p) => {
                let mut s = String::from_str(p);
                s.append(".");
                s.append(self.suffix);
                s
            },
            None => String::from_str(self.suffix),
        }
    }
}

/// The tag of an event is resolved: it is the parser's tag when the
/// parser supplied one, else the default tag of the event's level.
pub open spec fn spec_tag_resolved(t: Tag, parsed: Option<Tag>, level: Level) -> bool {
    match parsed {
        Some(pt) => t == pt,
        None => t.prefix is None && t.suffix@ == spec_level_label(level) && t.icon
            == spec_level_icon(level),
    }
}

/// Returns the canonical icon of a severity level.
pub fn level_icon(level: Level) -> (r: char)
    ensures
        r == spec_level_icon(level),
{
    match level {
        Level::Trace => '\u{1F4CD}',
        Level::Debug => '\u{1F41B}',
        Level::Info => '\u{FF49}',
        Level::Warn => '\u{1F6A7}',
        Level::Error => '\u{1F6A8}',
    }
}

/// Returns the parsed tag when present, else the default tag of the level.
pub fn resolve_tag(parsed: Option<Tag>, level: Level) -> (r: Tag)
    ensures
        spec_tag_resolved(r, parsed, level),
        parsed matches Some(t) ==> r == t,
{
    match parsed {
        Some(t) => t,
        None => Tag::new_from_level(None, level),
    }
}

/// A type that can supply a [`Tag`] for an event, given the event's target
/// string and level. A parser that returns `None` leaves the event with the
/// default tag of its level.
pub trait TagParser: Sized {
    /// Parses a tag from an event's target and level, or declines.
    fn try_parse(&self, target: &str, level: Level) -> Option<Tag>;
}

/// A [`TagParser`] that never supplies a tag.
#[derive(Clone, Debug)]
pub struct NoTag;

impl TagParser for NoTag {
    fn try_parse(&self, target: &str, level: Level) -> (r: Option<Tag>)
        ensures
            r is None,
    {
        None
    }
}

} // verus!
