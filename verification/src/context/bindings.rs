use crate::context::gl;
use crate::context::rect::{Rect, Size};
use crate::context::request::{Level, Reply, Request, RequestView};
use crate::glenums::flags;
use crate::glenums::{ClearKind, DebugSeverity, DebugSource, DebugType, DrawMode, GetString};
use crate::text;
use vstd::prelude::*;

verus! {

/// The library's side of a graphics context: the requests that were recorded and that the
/// driver has not taken yet, oldest first.
pub struct Gl {
    queue: Vec<Request>,
}

impl View for Gl {
    type V = Seq<RequestView>;

    closed spec fn view(&self) -> Seq<RequestView> {
        Seq::new(self.queue@.len(), |i: int| self.queue@[i]@)
    }
}

/// A debug message of the graphics interface, ready for the log.
#[derive(Debug)]
pub struct DebugMessage {
    pub level: Level,
    pub text: String,
}

/// The set that the bits `bits` of a message stand for: the bits themselves, or the wildcard
/// where one of them is outside the mask `all` of the flags.
pub open spec fn filter_of(bits: u32, all: u32) -> u32 {
    if bits & !all == 0 {
        bits
    } else {
        gl::DONT_CARE
    }
}

/// The level at which a message of the severity `severity` is logged, where it has one: errors
/// for a high severity, warnings for a medium or low one, information for a notification.
pub open spec fn level_of(severity: u32) -> Option<Level> {
    let severity = filter_of(severity, DebugSeverity::all_bits());
    if severity == gl::DEBUG_SEVERITY_HIGH {
        Some(Level::Error)
    } else if severity == gl::DEBUG_SEVERITY_MEDIUM || severity == gl::DEBUG_SEVERITY_LOW {
        Some(Level::Warn)
    } else if severity == gl::DEBUG_SEVERITY_NOTIFICATION {
        Some(Level::Info)
    } else {
        None
    }
}

/// The title of the source `source` of a message, where it has one.
pub open spec fn source_title(source: u32) -> Option<Seq<char>> {
    flags::title_of(filter_of(source, DebugSource::all_bits()), DebugSource::titles())
}

/// The title of the kind `debug_type` of a message, where it has one.
pub open spec fn type_title(debug_type: u32) -> Option<Seq<char>> {
    flags::title_of(filter_of(debug_type, DebugType::all_bits()), DebugType::titles())
}

/// Whether a message can be reported: its source and its kind have a title, and its severity
/// has a level.
pub open spec fn reportable(source: u32, debug_type: u32, severity: u32) -> bool {
    source_title(source) is Some && type_title(debug_type) is Some && level_of(severity) is Some
}

/// The text of a message for the log: its number, its source and its kind by their titles,
/// and the message itself.
pub open spec fn report_text(source: u32, debug_type: u32, id: u32, message: Seq<char>) -> Seq<
    char,
> {
    "["@ + text::decimal(id as nat) + "]: ["@ + source_title(source).unwrap() + "; "@ + type_title(
        debug_type,
    ).unwrap() + "] - "@ + message
}

/// A buffer of `len` spaces.
pub open spec fn whitespace(len: nat) -> Seq<u8> {
    Seq::new(len, |i: int| 0x20u8)
}

impl Gl {
    /// A context with nothing recorded.
    pub fn new() -> (gl: Gl)
        ensures
            gl@ == Seq::<RequestView>::empty(),
    {
        let gl = Gl { queue: Vec::new() };
        assert(gl@ =~= Seq::<RequestView>::empty());
        gl
    }

    /// Records one request behind those of the queue.
    pub fn record(&mut self, request: Request)
        ensures
            final(self)@ == old(self)@.push(request@),
    {
        self.queue.push(request);
        assert(self@ =~= old(self)@.push(request@));
    }

    /// Records the message `text` for the log as an error.
    pub fn error(&mut self, text: &str)
        ensures
            final(self)@ == old(self)@.push(RequestView::Log { level: Level::Error, text: text@ }),
    {
        self.record(Request::Log { level: Level::Error, text: String::from_str(text) });
    }

    /// Records the message `text` for the log as information.
    pub fn info(&mut self, text: String)
        ensures
            final(self)@ == old(self)@.push(RequestView::Log { level: Level::Info, text: text@ }),
    {
        self.record(Request::Log { level: Level::Info, text });
    }

    /// Hands the recorded requests to the driver, oldest first, and leaves the queue empty.
    pub fn take(&mut self) -> (requests: Vec<Request>)
        ensures
            final(self)@ == Seq::<RequestView>::empty(),
            requests@.len() == old(self)@.len(),
            forall|i: int| 0 <= i < requests@.len() ==> (#[trigger] requests@[i])@ == old(self)@[i],
    {
        let mut requests = Vec::new();
        core::mem::swap(&mut self.queue, &mut requests);
        assert(self@ =~= Seq::<RequestView>::empty());
        requests
    }

    /// Asks for the string `what` of the context; of the extensions, for the one at `index`.
    /// Returns whether a request was recorded: none is for the extensions without an index.
    pub fn get_string(&mut self, what: GetString, index: Option<usize>) -> (asked: bool)
        requires
            what@ == gl::VENDOR || what@ == gl::RENDERER || what@ == gl::VERSION || what@
                == gl::SHADING_LANGUAGE_VERSION || what@ == gl::EXTENSIONS,
        ensures
            what@ != gl::EXTENSIONS ==> asked && final(self)@ == old(self)@.push(
                RequestView::GetString { name: what@ },
            ),
            what@ == gl::EXTENSIONS ==> asked == index is Some,
            what@ == gl::EXTENSIONS && index is Some ==> final(self)@ == old(self)@.push(
                RequestView::GetStringi { name: what@, index: index->0 as u32 },
            ),
            what@ == gl::EXTENSIONS && index is None ==> final(self)@ == old(self)@,
    {
        if what.bits() == gl::EXTENSIONS {
            match index {
                Some(index) => {
                    self.record(Request::GetStringi { name: what.bits(), index: index as u32 });
                    true
                },
                None => false,
            }
        } else {
            self.record(Request::GetString { name: what.bits() });
            true
        }
    }

    /// The string that `get_string` asked for, from what the request yielded: the bytes read
    /// as UTF-8, or none where the context has no such string.
    pub fn get_string_of(reply: Reply) -> (string: Option<String>)
        ensures
            string is Some == reply.spec_text() is Some,
            string matches Some(text) ==> text@ == text::utf8_lossy(reply.spec_text().unwrap()),
    {
        match reply.text() {
            Some(bytes) => Some(text::lossy(bytes.as_slice())),
            None => None,
        }
    }

    /// Sets the viewing area to `rect`.
    pub fn viewport(&mut self, rect: Rect)
        ensures
            final(self)@ == old(self)@.push(
                RequestView::Viewport {
                    x: rect.x as i32,
                    y: rect.y as i32,
                    width: rect.size.width as i32,
                    height: rect.size.height as i32,
                },
            ),
    {
        self.record(
            Request::Viewport {
                x: rect.x as i32,
                y: rect.y as i32,
                width: rect.size.width as i32,
                height: rect.size.height as i32,
            },
        );
    }

    /// Asks for the largest viewport that the context supports.
    pub fn viewport_max(&mut self)
        ensures
            final(self)@ == old(self)@.push(
                RequestView::GetIntegerPair { pname: gl::MAX_VIEWPORT_DIMS },
            ),
    {
        self.record(Request::GetIntegerPair { pname: gl::MAX_VIEWPORT_DIMS });
    }

    /// The largest viewport, from what `viewport_max` yielded: width and height in that order.
    pub fn viewport_max_of(reply: &Reply) -> (size: Size)
        ensures
            size.width == reply.spec_pair().0 as u32,
            size.height == reply.spec_pair().1 as u32,
    {
        let (width, height) = reply.pair();
        Size { width: width as u32, height: height as u32 }
    }

    /// Clears the buffers of `clear` to the values set for them.
    pub fn clear(&mut self, clear: ClearKind)
        ensures
            final(self)@ == old(self)@.push(RequestView::Clear { mask: clear@ }),
    {
        self.record(Request::Clear { mask: clear.bits() });
    }

    /// Draws `count` vertices of the bound vertex array by their indices, which are 32 bits
    /// wide and start at byte `offset` of the element buffer.
    pub fn draw_elements(&mut self, mode: DrawMode, count: u32, offset: u32)
        ensures
            final(self)@ == old(self)@.push(
                RequestView::DrawElements {
                    mode: mode@,
                    count: count as i32,
                    kind: gl::UNSIGNED_INT,
                    offset: offset as usize,
                },
            ),
    {
        self.record(
            Request::DrawElements {
                mode: mode.bits(),
                count: count as i32,
                kind: gl::UNSIGNED_INT,
                offset: offset as usize,
            },
        );
    }

    /// The buffer that a log of `len` bytes is read into: `len + 1` spaces.
    pub fn create_whitespace_cstring(len: usize) -> (buffer: Vec<u8>)
        requires
            len < usize::MAX,
        ensures
            buffer@ == whitespace((len + 1) as nat),
    {
        let mut buffer: Vec<u8> = Vec::new();
        let mut i: usize = 0;
        while i < len + 1
            invariant
                len < usize::MAX,
                i <= len + 1,
                buffer@ == whitespace(i as nat),
            decreases len + 1 - i,
        {
            buffer.push(0x20u8);
            i += 1;
            assert(buffer@ =~= whitespace(i as nat));
        }
        buffer
    }

    /// Whether the message with these enumerants can be reported.
    pub fn can_report(source: u32, debug_type: u32, severity: u32) -> (can: bool)
        ensures
            can == reportable(source, debug_type, severity),
    {
        let source = DebugSource::from_bits(source).unwrap_or(DebugSource::dont_care());
        let debug_type = DebugType::from_bits(debug_type).unwrap_or(DebugType::dont_care());
        let severity = DebugSeverity::from_bits(severity).unwrap_or(DebugSeverity::dont_care());
        let severity = severity.bits();
        let leveled = severity == gl::DEBUG_SEVERITY_HIGH || severity == gl::DEBUG_SEVERITY_MEDIUM
            || severity == gl::DEBUG_SEVERITY_LOW || severity == gl::DEBUG_SEVERITY_NOTIFICATION;
        source.title().is_some() && debug_type.title().is_some() && leveled
    }

    /// Makes a debug message of the graphics interface ready for the log: reads the bytes of
    /// the message as UTF-8 and reports the message.
    pub fn gl_debug_callback(
        source: u32,
        debug_type: u32,
        id: u32,
        severity: u32,
        message: &[u8],
    ) -> (report: DebugMessage)
        requires
            reportable(source, debug_type, severity),
        ensures
            Some(report.level) == level_of(severity),
            report.text@ == report_text(source, debug_type, id, text::utf8_lossy(message@)),
    {
        let message = text::lossy(message);
        Self::report(source, debug_type, id, severity, message.as_str())
    }

    /// Reports a debug message with the text `message`. The enumerants of the message are
    /// taken as sets of flags; bits outside the flags give the wildcard.
    pub fn report(source: u32, debug_type: u32, id: u32, severity: u32, message: &str) -> (report:
        DebugMessage)
        requires
            reportable(source, debug_type, severity),
        ensures
            Some(report.level) == level_of(severity),
            report.text@ == report_text(source, debug_type, id, message@),
    {
        let source = DebugSource::from_bits(source).unwrap_or(DebugSource::dont_care());
        let debug_type = DebugType::from_bits(debug_type).unwrap_or(DebugType::dont_care());
        let severity = DebugSeverity::from_bits(severity).unwrap_or(DebugSeverity::dont_care());
        let mut text = String::from_str("[");
        text.append(text::to_decimal(id).as_str());
        text.append("]: [");
        text.append(source.to_string().as_str());
        text.append("; ");
        text.append(debug_type.to_string().as_str());
        text.append("] - ");
        text.append(message);
        let severity = severity.bits();
        let level = if severity == gl::DEBUG_SEVERITY_HIGH {
            Level::Error
        } else if severity == gl::DEBUG_SEVERITY_MEDIUM || severity == gl::DEBUG_SEVERITY_LOW {
            Level::Warn
        } else {
            Level::Info
        };
        DebugMessage { level, text }
    }

    /// Switches the debug output on, synchronous with the calls that cause the messages, and
    /// installs the handler of the messages.
    pub fn enable_debug_output(&mut self)
        ensures
            final(self)@ == old(self)@ + seq![
                RequestView::Enable { cap: gl::DEBUG_OUTPUT },
                RequestView::Enable { cap: gl::DEBUG_OUTPUT_SYNCHRONOUS },
                RequestView::DebugMessageCallback,
            ],
    {
        self.record(Request::Enable { cap: gl::DEBUG_OUTPUT });
        self.record(Request::Enable { cap: gl::DEBUG_OUTPUT_SYNCHRONOUS });
        self.record(Request::DebugMessageCallback);
        assert(self@ =~= old(self)@ + seq![
            RequestView::Enable { cap: gl::DEBUG_OUTPUT },
            RequestView::Enable { cap: gl::DEBUG_OUTPUT_SYNCHRONOUS },
            RequestView::DebugMessageCallback,
        ]);
    }

    /// Switches the messages of one class on or off.
    pub fn debug_message_control(
        &mut self,
        debug_source: DebugSource,
        debug_type: DebugType,
        debug_severity: DebugSeverity,
        enable: bool,
    )
        ensures
            final(self)@ == old(self)@.push(
                RequestView::DebugMessageControl {
                    source: debug_source@,
                    kind: debug_type@,
                    severity: debug_severity@,
                    enabled: enable,
                },
            ),
    {
        self.record(
            Request::DebugMessageControl {
                source: debug_source.bits(),
                kind: debug_type.bits(),
                severity: debug_severity.bits(),
                enabled: enable,
            },
        );
    }
}

} // verus!
