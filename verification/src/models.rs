//! Event records and their normalization against a configuration.

use vstd::prelude::*;
use crate::configuration::{copy_custom, copy_text, entries, text, Configuration, ConfigurationView};
use crate::custom::CustomMap;
use crate::level::Level;

verus! {

/// One stack frame of a trace.
pub struct Frame {
    pub filename: String,
    pub lineno: Option<i32>,
    pub colno: Option<i32>,
    pub method: Option<String>,
}

/// What went wrong, as class, message and longer description.
pub struct Exception {
    pub class: String,
    pub message: Option<String>,
    pub description: Option<String>,
}

/// An exception together with the frames that led to it.
pub struct Trace {
    pub exception: Exception,
    pub frames: Vec<Frame>,
}

/// A plain message with extra key/value data.
pub struct Message {
    pub body: String,
    pub extra: CustomMap,
}

/// What an event reports: a message or a trace.
pub enum Body {
    MessageBody { message: Message },
    TraceBody { trace: Trace },
}

/// The library that produced an event.
pub struct Notifier {
    pub name: Option<String>,
    pub version: Option<String>,
}

/// An event as the caller supplies it. Only `body` has to be set.
pub struct Data {
    pub body: Body,
    pub level: Option<Level>,
    pub environment: Option<String>,
    pub code_version: Option<String>,
    pub platform: Option<String>,
    pub language: Option<String>,
    pub framework: Option<String>,
    pub context: Option<String>,
    pub custom: Option<CustomMap>,
    pub uuid: Option<String>,
    pub title: Option<String>,
    pub fingerprint: Option<String>,
    pub timestamp: Option<i64>,
    pub notifier: Option<Notifier>,
}

/// What a [`Data`] says. The fields that normalization never touches are kept
/// as they are; the others are given by their characters or entries.
pub ghost struct DataView {
    pub body: Body,
    pub level: Option<Level>,
    pub environment: Option<Seq<char>>,
    pub code_version: Option<Seq<char>>,
    pub platform: Option<Seq<char>>,
    pub language: Option<Seq<char>>,
    pub framework: Option<Seq<char>>,
    pub context: Option<Seq<char>>,
    pub custom: Option<Map<Seq<char>, serde_json::Value>>,
    pub uuid: Option<Seq<char>>,
    pub title: Option<String>,
    pub fingerprint: Option<String>,
    pub timestamp: Option<i64>,
    pub notifier: Option<Notifier>,
}

impl View for Data {
    type V = DataView;

    open spec fn view(&self) -> DataView {
        DataView {
            body: self.body,
            level: self.level,
            environment: text(self.environment),
            code_version: text(self.code_version),
            platform: text(self.platform),
            language: text(self.language),
            framework: text(self.framework),
            context: text(self.context),
            custom: entries(self.custom),
            uuid: text(self.uuid),
            title: self.title,
            fingerprint: self.fingerprint,
            timestamp: self.timestamp,
            notifier: self.notifier,
        }
    }
}

/// The language tag given to events that carry none.
pub open spec fn language_tag() -> Seq<char> {
    "rust"@
}

/// `value` if it is set, else `fallback`.
pub open spec fn or_else<T>(value: Option<T>, fallback: Option<T>) -> Option<T> {
    if value is Some {
        value
    } else {
        fallback
    }
}

/// The record that normalization yields for event `d` under configuration
/// `c`, on a system identified as `os`, when `fresh` is the identifier
/// generated for events that have none.
///
/// The environment of the configuration, when set, overrides that of the
/// event. Every other field is only filled where the event left it unset.
pub open spec fn normalized(d: DataView, c: ConfigurationView, os: Seq<char>, fresh: Seq<char>) -> DataView {
    DataView {
        body: d.body,
        level: or_else(d.level, Some(Level::Info)),
        language: or_else(d.language, Some(language_tag())),
        environment: or_else(c.environment, d.environment),
        code_version: or_else(d.code_version, c.code_version),
        platform: or_else(or_else(d.platform, c.platform), Some(os)),
        framework: or_else(d.framework, c.framework),
        context: or_else(d.context, c.context),
        custom: or_else(d.custom, c.custom),
        uuid: or_else(d.uuid, Some(fresh)),
        title: d.title,
        fingerprint: d.fingerprint,
        timestamp: d.timestamp,
        notifier: d.notifier,
    }
}

/// The shape of a hyphenated identifier: 36 characters with hyphens after
/// the groups of 8, 4, 4 and 4.
pub open spec fn hyphenated(id: Seq<char>) -> bool {
    &&& id.len() == 36
    &&& id[8] == '-'
    &&& id[13] == '-'
    &&& id[18] == '-'
    &&& id[23] == '-'
}

/// Calls `uuid::Uuid::new_v4` and formats the result with its `Display`
/// impl, which writes the hyphenated lower-case form. The identifier itself
/// is random; only its shape is stated.
#[verifier::external_body]
fn new_uuid() -> (id: String)
    ensures
        hyphenated(id@),
{
    uuid::Uuid::new_v4().to_string()
}

/// A delivery-ready event: the payload handed to a transport.
pub struct Item {
    pub data: Data,
}

/// `value` if it is set, else a copy of `fallback`.
fn filled(value: Option<String>, fallback: &Option<String>) -> (r: Option<String>)
    ensures
        text(r) == or_else(text(value), text(*fallback)),
{
    match value {
        Some(s) => Some(s),
        None => copy_text(fallback),
    }
}

impl Item {
    /// Normalizes `data` under `config`, using `fresh` as the identifier of an
    /// event that has none.
    pub fn normalize_with(data: Data, config: &Configuration, os: &str, fresh: String) -> (item: Item)
        ensures
            item.data@ == normalized(data@, config@, os@, fresh@),
    {
        let Data {
            body,
            level,
            environment,
            code_version,
            platform,
            language,
            framework,
            context,
            custom,
            uuid,
            title,
            fingerprint,
            timestamp,
            notifier,
        } = data;
        let level = match level {
            Some(l) => Some(l),
            None => Some(Level::Info),
        };
        let language = match language {
            Some(l) => Some(l),
            None => Some("rust".to_owned()),
        };
        let environment = match &config.environment {
            Some(e) => Some(e.clone()),
            None => environment,
        };
        let code_version = filled(code_version, &config.code_version);
        let platform = match filled(platform, &config.platform) {
            Some(p) => Some(p),
            None => Some(os.to_owned()),
        };
        let framework = filled(framework, &config.framework);
        let context = filled(context, &config.context);
        let custom = match custom {
            Some(m) => Some(m),
            None => copy_custom(&config.custom),
        };
        let uuid = match uuid {
            Some(u) => Some(u),
            None => Some(fresh),
        };
        Item {
            data: Data {
                body,
                level,
                environment,
                code_version,
                platform,
                language,
                framework,
                context,
                custom,
                uuid,
                title,
                fingerprint,
                timestamp,
                notifier,
            },
        }
    }

    /// Normalizes `data` under `config` on a system identified as `os`.
    ///
    /// An event without identifier gets a freshly generated one, which is the
    /// only part of the result that the arguments do not determine.
    pub fn normalize(data: Data, config: &Configuration, os: &str) -> (item: Item)
        ensures
            item.data@.uuid is Some,
            item.data@ == normalized(data@, config@, os@, item.data@.uuid->0),
            data@.uuid is None ==> hyphenated(item.data@.uuid->0),
    {
        let fresh = if data.uuid.is_some() {
            String::new()
        } else {
            new_uuid()
        };
        Item::normalize_with(data, config, os, fresh)
    }
}

/// The severity an event counts with: its own, or `Info` if it has none.
pub open spec fn effective_level(level: Option<Level>) -> Level {
    match level {
        Some(l) => l,
        None => Level::Info,
    }
}

/// Whether an event of severity `level` is dropped under the minimum
/// severity `minimum`: exactly when it is strictly below it.
pub open spec fn dropped(level: Option<Level>, minimum: Level) -> bool {
    effective_level(level).below(minimum)
}

/// Decides whether `record` is filtered out under `config`.
pub fn should_drop(record: &Item, config: &Configuration) -> (drop: bool)
    ensures
        drop == dropped(record.data.level, config.log_level),
{
    let level = match record.data.level {
        Some(l) => l,
        None => Level::Info,
    };
    level.is_below(config.log_level)
}

/// Every field that normalization promises is set.
pub open spec fn populated(d: DataView) -> bool {
    &&& d.level is Some
    &&& d.language is Some
    &&& d.platform is Some
    &&& d.uuid is Some
}

/// Every field that normalization can fill is set.
pub open spec fn complete(d: DataView) -> bool {
    &&& populated(d)
    &&& d.environment is Some
    &&& d.code_version is Some
    &&& d.framework is Some
    &&& d.context is Some
    &&& d.custom is Some
}

/// After normalization the severity, language, platform and identifier are
/// set; the environment is set if the configuration names one; framework,
/// context and custom data are set if the event or the configuration had them.
pub proof fn lemma_normalized_populated(d: DataView, c: ConfigurationView, os: Seq<char>, fresh: Seq<char>)
    ensures
        populated(normalized(d, c, os, fresh)),
        c.environment is Some ==> normalized(d, c, os, fresh).environment is Some,
        (d.framework is Some || c.framework is Some) <==> normalized(d, c, os, fresh).framework is Some,
        (d.context is Some || c.context is Some) <==> normalized(d, c, os, fresh).context is Some,
        (d.custom is Some || c.custom is Some) <==> normalized(d, c, os, fresh).custom is Some,
{
}

/// Normalizing a second time under the same configuration changes nothing,
/// whatever identifier the second run would have generated.
pub proof fn lemma_normalized_idempotent(
    d: DataView,
    c: ConfigurationView,
    os: Seq<char>,
    fresh: Seq<char>,
    other: Seq<char>,
)
    ensures
        normalized(normalized(d, c, os, fresh), c, os, other) == normalized(d, c, os, fresh),
{
}

/// A complete record whose environment is the one the configuration names,
/// if it names one, is left as it is. In particular its identifier is kept.
pub proof fn lemma_normalized_complete_unchanged(
    d: DataView,
    c: ConfigurationView,
    os: Seq<char>,
    fresh: Seq<char>,
)
    requires
        complete(d),
        c.environment is Some ==> c.environment == d.environment,
    ensures
        normalized(d, c, os, fresh) == d,
{
}

/// An identifier that the caller supplied is never replaced.
pub proof fn lemma_normalized_keeps_identifier(
    d: DataView,
    c: ConfigurationView,
    os: Seq<char>,
    fresh: Seq<char>,
)
    requires
        d.uuid is Some,
    ensures
        normalized(d, c, os, fresh).uuid == d.uuid,
{
}

/// The environment of the configuration wins where it is set; otherwise the
/// event keeps its own.
pub proof fn lemma_normalized_environment(
    d: DataView,
    c: ConfigurationView,
    os: Seq<char>,
    fresh: Seq<char>,
)
    ensures
        c.environment is Some ==> normalized(d, c, os, fresh).environment == c.environment,
        c.environment is None ==> normalized(d, c, os, fresh).environment == d.environment,
{
}

/// Describes an error by its type name, its message and a longer text: the
/// text of its source where it has one, else its own.
pub fn get_exception(class: &str, message: &str, detail: &str, source_detail: Option<&str>) -> (e: Exception)
    ensures
        e.class@ == class@,
        text(e.message) == Some(message@),
        text(e.description) == Some(
            match source_detail {
                Some(s) => s@,
                None => detail@,
            },
        ),
{
    let description = match source_detail {
        Some(s) => s.to_owned(),
        None => detail.to_owned(),
    };
    Exception { class: class.to_owned(), message: Some(message.to_owned()), description: Some(description) }
}

/// The name under which this library announces itself in events.
pub open spec fn notifier_name() -> Seq<char> {
    "SierraSoftworks/rollbar-rs"@
}

/// The version of this library.
pub const VERSION: &'static str = "0.1.0";

/// A line or column number as the signed 32-bit value that an event
/// carries: numbers beyond the signed range wrap around.
pub open spec fn wrapped(n: u32) -> int {
    if n <= i32::MAX {
        n as int
    } else {
        n - 0x1_0000_0000
    }
}

/// Computes [`wrapped`].
pub fn wrap_position(n: u32) -> (r: i32)
    ensures
        r == wrapped(n),
{
    if n <= 2147483647 {
        n as i32
    } else {
        let shifted: i64 = n as i64 - 4294967296;
        shifted as i32
    }
}

/// Drops the innermost captured frame, which is the capturing function
/// itself.
pub fn get_backtrace_frames(captured: Vec<Frame>) -> (frames: Vec<Frame>)
    ensures
        frames@ == (if captured@.len() > 0 {
            captured@.drop_last()
        } else {
            captured@
        }),
{
    let mut frames = captured;
    if frames.len() > 0 {
        let keep = frames.len() - 1;
        frames.truncate(keep);
    }
    frames
}

impl Frame {
    /// A frame that names a place in a source file.
    pub fn at(filename: &str, lineno: Option<u32>, colno: Option<u32>) -> (frame: Frame)
        ensures
            frame.filename@ == filename@,
            frame.lineno == (match lineno {
                Some(l) => Some(wrapped(l) as i32),
                None => None,
            }),
            frame.colno == (match colno {
                Some(c) => Some(wrapped(c) as i32),
                None => None,
            }),
            frame.method is None,
    {
        let lineno = match lineno {
            Some(l) => Some(wrap_position(l)),
            None => None,
        };
        let colno = match colno {
            Some(c) => Some(wrap_position(c)),
            None => None,
        };
        Frame { filename: filename.to_owned(), lineno, colno, method: None }
    }
}

impl Notifier {
    /// This library, by name and version.
    pub fn this_library() -> (n: Notifier)
        ensures
            text(n.name) == Some(notifier_name()),
            text(n.version) == Some(VERSION@),
    {
        Notifier { name: Some("SierraSoftworks/rollbar-rs".to_owned()), version: Some(VERSION.to_owned()) }
    }
}

/// `data` is an event as the constructors make it: of severity `level`,
/// announced by this library, with an identifier, and with nothing set that
/// normalization would fill.
pub open spec fn newly_built(data: Data, level: Level) -> bool {
    &&& data.level == Some(level)
    &&& data.uuid is Some
    &&& data.notifier matches Some(n) && text(n.name) == Some(notifier_name()) && text(n.version) == Some(
        VERSION@,
    )
    &&& data.environment is None
    &&& data.code_version is None
    &&& data.platform is None
    &&& data.language is None
    &&& data.framework is None
    &&& data.context is None
    &&& data.custom is None
    &&& data.title is None
    &&& data.fingerprint is None
    &&& data.timestamp is None
}

impl Data {
    /// An event with the given body, severity and identifier, announced by
    /// this library, and nothing else set.
    pub fn with_body(body: Body, level: Level, uuid: String) -> (data: Data)
        ensures
            data.body == body,
            newly_built(data, level),
            data.uuid == Some(uuid),
    {
        Data {
            body,
            level: Some(level),
            environment: None,
            code_version: None,
            platform: None,
            language: None,
            framework: None,
            context: None,
            custom: None,
            uuid: Some(uuid),
            title: None,
            fingerprint: None,
            timestamp: None,
            notifier: Some(Notifier::this_library()),
        }
    }

    /// A message event with a freshly generated identifier.
    pub fn message(level: Level, body: &str, extra: CustomMap) -> (data: Data)
        ensures
            data.body matches Body::MessageBody { message } && message.body@ == body@ && message.extra
                == extra,
            newly_built(data, level),
            data@.uuid matches Some(id) && hyphenated(id),
    {
        let message = Message { body: body.to_owned(), extra };
        Data::with_body(Body::MessageBody { message }, level, new_uuid())
    }

    /// A trace event for `exception` with a freshly generated identifier.
    /// The place of the report is added as the last frame.
    pub fn error(level: Level, exception: Exception, captured: Vec<Frame>, file: &str, line: u32) -> (data:
        Data)
        ensures
            data.body matches Body::TraceBody { trace } && trace.exception == exception
                && trace.frames@.len() == captured@.len() + 1 && trace.frames@.drop_last() == captured@
                && trace.frames@.last().filename@ == file@ && trace.frames@.last().lineno == Some(
                wrapped(line) as i32,
            ) && trace.frames@.last().colno is None && trace.frames@.last().method is None,
            newly_built(data, level),
            data@.uuid matches Some(id) && hyphenated(id),
    {
        let mut frames = captured;
        frames.push(Frame::at(file, Some(line), None));
        assert(frames@.drop_last() =~= captured@);
        let trace = Trace { exception, frames };
        Data::with_body(Body::TraceBody { trace }, level, new_uuid())
    }

    /// The text reported for a panic whose payload carried `payload`.
    pub open spec fn panic_text(payload: Option<Seq<char>>) -> Seq<char> {
        match payload {
            Some(s) => s,
            None => "Panic"@,
        }
    }

    /// A trace event for a panic. `payload` is the text the panic carried, if
    /// it carried text; `location` is where it happened, as file, line and
    /// column, if that is known.
    pub fn panic(level: Level, payload: Option<&str>, location: Option<(&str, u32, u32)>) -> (data: Data)
        ensures
            data.body matches Body::TraceBody { trace } && {
                &&& trace.exception.class@ == "<panic>"@
                &&& text(trace.exception.message) == Some(
                    Self::panic_text(
                        match payload {
                            Some(s) => Some(s@),
                            None => None,
                        },
                    ),
                )
                &&& text(trace.exception.description) == text(trace.exception.message)
                &&& match location {
                    Some(place) => {
                        &&& trace.frames@.len() == 1
                        &&& trace.frames@[0].filename@ == place.0@
                        &&& trace.frames@[0].lineno == Some(wrapped(place.1) as i32)
                        &&& trace.frames@[0].colno == Some(wrapped(place.2) as i32)
                        &&& trace.frames@[0].method is None
                    },
                    None => trace.frames@.len() == 0,
                }
            },
            newly_built(data, level),
            data@.uuid matches Some(id) && hyphenated(id),
    {
        let message = match payload {
            Some(s) => s,
            None => "Panic",
        };
        let mut frames: Vec<Frame> = Vec::new();
        match location {
            Some(place) => {
                frames.push(Frame::at(place.0, Some(place.1), Some(place.2)));
            },
            None => {},
        }
        let exception = Exception {
            class: "<panic>".to_owned(),
            message: Some(message.to_owned()),
            description: Some(message.to_owned()),
        };
        Data::with_body(Body::TraceBody { trace: Trace { exception, frames } }, level, new_uuid())
    }
}

} // verus!
