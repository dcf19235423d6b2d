//! The text of an editor buffer, line by line, with its styles.

use crate::text::{chars_of, split, split_spec, texts_of};
use vstd::prelude::*;
use vstd::string::*;
use vstd::utf8::encode_utf8;

verus! {

/// The name of a style.
#[derive(Debug)]
pub struct StyleId(pub String);

impl View for StyleId {
    type V = Seq<char>;

    open spec fn view(&self) -> Seq<char> {
        self.0@
    }
}

impl Clone for StyleId {
    fn clone(&self) -> (copy: StyleId)
        ensures
            copy@ == self@,
    {
        StyleId(self.0.clone())
    }
}

/// The name of the style that text has where nothing else was said.
pub open spec fn default_style() -> Seq<char> {
    "default"@
}

/// The name of a buffer.
#[derive(Debug)]
pub struct BufferName(pub String);

impl View for BufferName {
    type V = Seq<char>;

    open spec fn view(&self) -> Seq<char> {
        self.0@
    }
}

impl Clone for BufferName {
    fn clone(&self) -> (copy: BufferName)
        ensures
            copy@ == self@,
    {
        BufferName(self.0.clone())
    }
}

impl BufferName {
    pub fn new(name: &str) -> (buffer_name: BufferName)
        ensures
            buffer_name@ == name@,
    {
        BufferName(String::from_str(name))
    }

    /// Tells whether two names are the same name.
    pub fn same(&self, other: &BufferName) -> (same: bool)
        ensures
            same == (self@ == other@),
    {
        self.0 == other.0
    }
}

/// The name of a view on a buffer.
#[derive(Debug)]
pub struct BufferViewName(pub String);

impl View for BufferViewName {
    type V = Seq<char>;

    open spec fn view(&self) -> Seq<char> {
        self.0@
    }
}

impl Clone for BufferViewName {
    fn clone(&self) -> (copy: BufferViewName)
        ensures
            copy@ == self@,
    {
        BufferViewName(self.0.clone())
    }
}

impl BufferViewName {
    pub fn new(name: &str) -> (view_name: BufferViewName)
        ensures
            view_name@ == name@,
    {
        BufferViewName(String::from_str(name))
    }

    /// Tells whether two names are the same name.
    pub fn same(&self, other: &BufferViewName) -> (same: bool)
        ensures
            same == (self@ == other@),
    {
        self.0 == other.0
    }
}

/// A run of characters in one style.
pub struct EnrichedSegment {
    characters: String,
    style: StyleId,
}

/// The mathematical value of an [`EnrichedSegment`].
pub struct Segment {
    pub characters: Seq<char>,
    pub style: Seq<char>,
}

/// What rendering a buffer yields, piece by piece.
#[derive(Debug)]
pub enum BufferRenderEvent {
    Char(char),
    SwitchStyle(StyleId),
}

/// The mathematical value of a [`BufferRenderEvent`].
pub enum RenderEvent {
    Char(char),
    SwitchStyle(Seq<char>),
}

impl View for BufferRenderEvent {
    type V = RenderEvent;

    open spec fn view(&self) -> RenderEvent {
        match self {
            BufferRenderEvent::Char(ch) => RenderEvent::Char(*ch),
            BufferRenderEvent::SwitchStyle(style) => RenderEvent::SwitchStyle(style@),
        }
    }
}

/// The event of one character.
pub open spec fn char_event(ch: char) -> RenderEvent {
    RenderEvent::Char(ch)
}

impl Segment {
    /// What rendering the segment yields: the switch to its style, then its
    /// characters one by one.
    pub open spec fn events(self) -> Seq<RenderEvent> {
        seq![RenderEvent::SwitchStyle(self.style)] + Seq::new(
            self.characters.len(),
            |i: int| char_event(self.characters[i]),
        )
    }

    /// The width of the segment: the length of its characters in UTF-8.
    pub open spec fn width(self) -> nat {
        encode_utf8(self.characters).len()
    }
}

impl View for EnrichedSegment {
    type V = Segment;

    closed spec fn view(&self) -> Segment {
        Segment { characters: self.characters@, style: self.style@ }
    }
}

/// Walks over what rendering a segment yields.
pub struct EnrichedSegmentIter<'a> {
    segment: &'a EnrichedSegment,
    first: bool,
    chars: Vec<char>,
    position: usize,
}

impl<'a> View for EnrichedSegmentIter<'a> {
    type V = Seq<RenderEvent>;

    /// What is still to come.
    closed spec fn view(&self) -> Seq<RenderEvent> {
        if self.first {
            self.segment@.events()
        } else {
            Seq::new(
                (self.chars@.len() - self.position) as nat,
                |i: int| char_event(self.chars@[self.position + i]),
            )
        }
    }
}

impl<'a> EnrichedSegmentIter<'a> {
    /// Whether the iterator is in step with its segment.
    pub closed spec fn well_formed(&self) -> bool {
        &&& self.chars@ == self.segment@.characters
        &&& self.position <= self.chars@.len()
        &&& self.first ==> self.position == 0
    }

    /// Yields the next event, or `None` when the segment is through.
    pub fn next(&mut self) -> (event: Option<BufferRenderEvent>)
        requires
            old(self).well_formed(),
        ensures
            final(self).well_formed(),
            match event {
                Some(event) => old(self)@.len() > 0 && event@ == old(self)@[0] && final(self)@
                    == old(self)@.drop_first(),
                None => old(self)@.len() == 0 && final(self)@ == old(self)@,
            },
    {
        if self.first {
            self.first = false;
            assert(self@ =~= old(self)@.drop_first());
            Some(BufferRenderEvent::SwitchStyle(self.segment.style.clone()))
        } else if self.position < self.chars.len() {
            let ch = self.chars[self.position];
            self.position = self.position + 1;
            assert(self@ =~= old(self)@.drop_first());
            Some(BufferRenderEvent::Char(ch))
        } else {
            None
        }
    }
}

impl EnrichedSegment {
    /// Makes a segment of the given characters in the given style.
    pub fn new(characters: String, style: StyleId) -> (segment: EnrichedSegment)
        ensures
            segment@ == (Segment { characters: characters@, style: style@ }),
    {
        EnrichedSegment { characters, style }
    }

    /// Starts a walk over what rendering the segment yields.
    pub fn iter<'a>(&'a self) -> (iter: EnrichedSegmentIter<'a>)
        ensures
            iter.well_formed(),
            iter@ == self@.events(),
    {
        EnrichedSegmentIter {
            segment: self,
            first: true,
            chars: chars_of(self.characters.as_str()),
            position: 0,
        }
    }
}

/// One line of a buffer: its segments, left to right.
pub struct Line {
    segments: Vec<EnrichedSegment>,
}

impl View for Line {
    type V = Seq<Segment>;

    closed spec fn view(&self) -> Seq<Segment> {
        Seq::new(self.segments@.len(), |i: int| self.segments@[i]@)
    }
}

/// The segments of a line of text: one for every word between spaces, each
/// with the space behind it, all in the default style.
pub open spec fn line_spec(source: Seq<char>) -> Seq<Segment> {
    Seq::new(
        split_spec(source, ' ').len(),
        |i: int| Segment { characters: split_spec(source, ' ')[i].push(' '), style: default_style() },
    )
}

/// What rendering the first `count` segments yields, one segment after the
/// other.
pub open spec fn events_of(segments: Seq<Segment>, count: nat) -> Seq<RenderEvent>
    decreases count,
{
    if count == 0 {
        Seq::empty()
    } else {
        events_of(segments, (count - 1) as nat) + segments[count - 1].events()
    }
}

/// The width of the first `count` segments together.
pub open spec fn width_of(segments: Seq<Segment>, count: nat) -> nat
    decreases count,
{
    if count == 0 {
        0
    } else {
        width_of(segments, (count - 1) as nat) + segments[count - 1].width()
    }
}

/// Where a column falls in a line: the segment whose span of columns holds
/// it, and how far into that segment it lies. Searched from segment `from`
/// on; `None` where the column lies behind the last segment.
pub open spec fn find_col_from(segments: Seq<Segment>, col: nat, from: nat) -> Option<(int, int)>
    decreases segments.len() - from,
{
    if from >= segments.len() {
        None
    } else if width_of(segments, from + 1) > col {
        Some((from as int, col - width_of(segments, from)))
    } else {
        find_col_from(segments, col, from + 1)
    }
}

/// Where a column falls in a line.
pub open spec fn find_col_spec(segments: Seq<Segment>, col: nat) -> Option<(int, int)> {
    find_col_from(segments, col, 0)
}

/// The widths add up without ever getting less.
pub proof fn width_of_grows(segments: Seq<Segment>, fewer: nat, more: nat)
    requires
        fewer <= more,
    ensures
        width_of(segments, fewer) <= width_of(segments, more),
    decreases more,
{
    if fewer < more {
        width_of_grows(segments, fewer, (more - 1) as nat);
    }
}

/// The segment that `find_col` names is the one whose columns hold `col`;
/// it names none exactly where the line is not as wide as that.
pub proof fn find_col_names_the_segment(segments: Seq<Segment>, col: nat, from: nat)
    requires
        from <= segments.len(),
        width_of(segments, from) <= col,
    ensures
        match find_col_from(segments, col, from) {
            Some((segment, offset)) => {
                &&& from <= segment < segments.len()
                &&& width_of(segments, segment as nat) <= col < width_of(
                    segments,
                    (segment + 1) as nat,
                )
                &&& offset == col - width_of(segments, segment as nat)
            },
            None => width_of(segments, segments.len()) <= col,
        },
    decreases segments.len() - from,
{
    if from < segments.len() && width_of(segments, from + 1) <= col {
        find_col_names_the_segment(segments, col, from + 1);
    }
}

/// The character that a line has at a column, if `find_col` names a place
/// for it and the segment has a character there.
pub open spec fn get_spec(segments: Seq<Segment>, col: nat) -> Option<char> {
    match find_col_spec(segments, col) {
        Some((segment, offset)) => if 0 <= segment < segments.len() && 0 <= offset
            < segments[segment].characters.len() {
            Some(segments[segment].characters[offset])
        } else {
            None
        },
        None => None,
    }
}

impl Line {
    /// Breaks a line of text into segments.
    pub fn process(source: &str) -> (line: Line)
        ensures
            line@ == line_spec(source@),
    {
        let parts = split(source, ' ');
        let mut segments: Vec<EnrichedSegment> = Vec::new();
        let mut i: usize = 0;
        while i < parts.len()
            invariant
                i <= parts.len(),
                texts_of(parts@) == split_spec(source@, ' '),
                segments@.len() == i,
                forall|j: int| 0 <= j < i ==> (#[trigger] segments@[j])@ == line_spec(source@)[j],
            decreases parts.len() - i,
        {
            let mut characters = parts[i].clone();
            characters.append(" ");
            proof {
                reveal_strlit(" ");
                assert(texts_of(parts@)[i as int] == parts@[i as int]@);
                assert(characters@ =~= split_spec(source@, ' ')[i as int].push(' '));
            }
            segments.push(
                EnrichedSegment { characters, style: StyleId(String::from_str("default")) },
            );
            i = i + 1;
        }
        let line = Line { segments };
        assert(texts_of(parts@).len() == parts@.len());
        assert(line@ =~= line_spec(source@));
        line
    }

    /// Everything that rendering the line yields, segment by segment.
    pub fn iter(&self) -> (events: Vec<BufferRenderEvent>)
        ensures
            events@.len() == events_of(self@, self@.len()).len(),
            forall|i: int|
                0 <= i < events@.len() ==> (#[trigger] events@[i])@ == events_of(
                    self@,
                    self@.len(),
                )[i],
    {
        let mut events: Vec<BufferRenderEvent> = Vec::new();
        let mut s: usize = 0;
        while s < self.segments.len()
            invariant
                s <= self.segments.len(),
                events@.len() == events_of(self@, s as nat).len(),
                forall|i: int|
                    0 <= i < events@.len() ==> (#[trigger] events@[i])@ == events_of(
                        self@,
                        s as nat,
                    )[i],
            decreases self.segments.len() - s,
        {
            let ghost done = events_of(self@, s as nat);
            let ghost all = self@[s as int].events();
            let mut walk = self.segments[s].iter();
            assert(walk@ =~= all.subrange(0, all.len() as int));
            loop
                invariant
                    s < self.segments.len(),
                    walk.well_formed(),
                    done == events_of(self@, s as nat),
                    all == self@[s as int].events(),
                    events@.len() - done.len() <= all.len(),
                    events@.len() >= done.len(),
                    walk@ == all.subrange(events@.len() - done.len(), all.len() as int),
                    forall|i: int| 0 <= i < done.len() ==> (#[trigger] events@[i])@ == done[i],
                    forall|i: int|
                        done.len() <= i < events@.len() ==> (#[trigger] events@[i])@ == all[i
                            - done.len()],
                ensures
                    events@.len() == done.len() + all.len(),
                    forall|i: int| 0 <= i < done.len() ==> (#[trigger] events@[i])@ == done[i],
                    forall|i: int|
                        done.len() <= i < events@.len() ==> (#[trigger] events@[i])@ == all[i
                            - done.len()],
                decreases all.len() - (events@.len() - done.len()),
            {
                let ghost taken = events@.len() - done.len();
                match walk.next() {
                    Some(event) => {
                        assert(all.subrange(taken, all.len() as int)[0] == all[taken]);
                        assert(all.subrange(taken, all.len() as int).drop_first() =~= all.subrange(
                            taken + 1,
                            all.len() as int,
                        ));
                        events.push(event);
                    },
                    None => {
                        assert(all.subrange(taken, all.len() as int).len() == 0);
                        break ;
                    },
                }
            }
            s = s + 1;
        }
        events
    }

    /// Finds where a column falls in the line: the index of its segment and
    /// the offset into that segment.
    pub fn find_col(&self, col: u32) -> (place: Option<(usize, usize)>)
        ensures
            match place {
                Some((segment, offset)) => find_col_spec(self@, col as nat) == Some(
                    (segment as int, offset as int),
                ),
                None => find_col_spec(self@, col as nat).is_none(),
            },
    {
        let mut total: usize = 0;
        let mut segment_idx: usize = 0;
        while segment_idx < self.segments.len()
            invariant
                segment_idx <= self.segments.len(),
                total == width_of(self@, segment_idx as nat),
                total <= col,
                find_col_spec(self@, col as nat) == find_col_from(
                    self@,
                    col as nat,
                    segment_idx as nat,
                ),
            decreases self.segments.len() - segment_idx,
        {
            let segment = &self.segments[segment_idx];
            let segment_len = segment.characters.as_str().as_bytes().len();
            assert(segment_len == self@[segment_idx as int].width());
            if segment_len > col as usize - total {
                return Some((segment_idx, col as usize - total));
            }
            total = total + segment_len;
            segment_idx = segment_idx + 1;
        }
        None
    }

    /// The character at a column of the line.
    pub fn get(&self, col: u32) -> (ch: Option<char>)
        ensures
            ch == get_spec(self@, col as nat),
    {
        match self.find_col(col) {
            Some((segment_idx, char_idx)) => {
                proof {
                    find_col_names_the_segment(self@, col as nat, 0);
                }
                let chars = chars_of(self.segments[segment_idx].characters.as_str());
                if char_idx < chars.len() {
                    Some(chars[char_idx])
                } else {
                    None
                }
            },
            None => None,
        }
    }
}

/// A place in a buffer.
#[derive(Clone, Copy, Debug, PartialEq, Eq, Structural)]
pub struct Cursor {
    pub row: u32,
    pub col: u32,
}

/// A text buffer: its lines, and the cursors in it.
pub struct Buffer {
    pub lines: Vec<Line>,
    pub cursors: Vec<Cursor>,
}

impl Buffer {
    /// Makes a buffer of a text: one line for every line of the text, and no
    /// cursor.
    pub fn from_string(source: &str) -> (buffer: Buffer)
        ensures
            buffer.cursors@.len() == 0,
            buffer.lines@.len() == split_spec(source@, '\n').len(),
            forall|i: int|
                0 <= i < buffer.lines@.len() ==> (#[trigger] buffer.lines@[i])@ == line_spec(
                    split_spec(source@, '\n')[i],
                ),
    {
        let parts = split(source, '\n');
        let mut lines: Vec<Line> = Vec::new();
        let mut i: usize = 0;
        assert(texts_of(parts@).len() == parts@.len());
        while i < parts.len()
            invariant
                i <= parts.len(),
                texts_of(parts@) == split_spec(source@, '\n'),
                lines@.len() == i,
                forall|j: int|
                    0 <= j < i ==> (#[trigger] lines@[j])@ == line_spec(
                        split_spec(source@, '\n')[j],
                    ),
            decreases parts.len() - i,
        {
            assert(texts_of(parts@)[i as int] == parts@[i as int]@);
            lines.push(Line::process(parts[i].as_str()));
            i = i + 1;
        }
        Buffer { lines, cursors: Vec::new() }
    }
}

} // verus!
