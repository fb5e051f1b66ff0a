//! The rules of the recording and playback API.
//!
//! A handler asks here what to answer; recording, playing and the files themselves are
//! the caller's work.

use vstd::prelude::*;

use crate::text::{chars_of, find, owned};
use crate::text;

verus! {

/// The HTTP status of an answer.
#[derive(Clone, Copy, Debug, PartialEq, Eq, Structural)]
pub enum Status {
    Success,
    Created,
    BadRequest,
    NotFound,
    Conflict,
    InternalServerError,
}

impl Status {
    /// The status code.
    pub open spec fn number(self) -> u16 {
        match self {
            Status::Success => 200,
            Status::Created => 201,
            Status::BadRequest => 400,
            Status::NotFound => 404,
            Status::Conflict => 409,
            Status::InternalServerError => 500,
        }
    }

    /// The status code.
    pub fn code(self) -> (r: u16)
        ensures
            r == self.number(),
    {
        match self {
            Status::Success => 200,
            Status::Created => 201,
            Status::BadRequest => 400,
            Status::NotFound => 404,
            Status::Conflict => 409,
            Status::InternalServerError => 500,
        }
    }
}

/// What an answer holds.
#[derive(Debug)]
pub enum Body {
    /// An error text.
    Error(String),
    /// The state that a command led to.
    State(String),
    /// Nothing but that it was done.
    Done,
    /// What was asked for, or the status of what was started.
    Content,
}

/// An answer.
#[derive(Debug)]
pub struct Reply {
    pub status: Status,
    pub body: Body,
}

/// What an answer holds, with its text as characters.
pub ghost enum BodyView {
    Error(Seq<char>),
    State(Seq<char>),
    Done,
    Content,
}

/// An answer, with its text as characters.
pub ghost struct ReplyView {
    pub status: Status,
    pub body: BodyView,
}

impl View for Reply {
    type V = ReplyView;

    open spec fn view(&self) -> ReplyView {
        ReplyView {
            status: self.status,
            body: match self.body {
                Body::Error(text) => BodyView::Error(text@),
                Body::State(text) => BodyView::State(text@),
                Body::Done => BodyView::Done,
                Body::Content => BodyView::Content,
            },
        }
    }
}

/// An answer that refuses with a text.
pub open spec fn refusal(status: Status, text: Seq<char>) -> ReplyView {
    ReplyView { status, body: BodyView::Error(text) }
}

fn refuse(status: Status, text: &str) -> (r: Reply)
    ensures
        r@ == refusal(status, text@),
{
    Reply { status, body: Body::Error(owned(text)) }
}

/// Whether a text is in ASCII.
pub open spec fn ascii(s: Seq<char>) -> bool {
    forall|i: int| 0 <= i < s.len() ==> (#[trigger] s[i]) as u32 <= 0x7f
}

/// Whether a name is that of a file in the directory itself: not empty, without "..",
/// without slashes and backslashes, not hidden, and in ASCII.
pub open spec fn valid_name(s: Seq<char>) -> bool {
    &&& s.len() > 0
    &&& !text::contains_text(s, ".."@)
    &&& !s.contains('/')
    &&& !s.contains('\\')
    &&& s[0] != '.'
    &&& ascii(s)
}

/// Checks a file or directory name.
pub fn validate_filename(filename: &str) -> (r: Result<(), &'static str>)
    ensures
        r is Ok == valid_name(filename@),
        r matches Err(e) ==> e@ == "Invalid filename"@,
{
    let chars = chars_of(filename);
    let dots = chars_of("..");
    if chars.len() == 0 || find(chars.as_slice(), dots.as_slice()).is_some() || chars[0] == '.' {
        return Err("Invalid filename");
    }
    let mut i: usize = 0;
    while i < chars.len()
        invariant
            i <= chars@.len(),
            chars@ == filename@,
            forall|k: int|
                0 <= k < i ==> (#[trigger] chars@[k]) != '/' && chars@[k] != '\\' && chars@[k] as u32
                    <= 0x7f,
        decreases chars@.len() - i,
    {
        let c: char = chars[i];
        if c == '/' || c == '\\' || c as u32 > 0x7f {
            assert(filename@[i as int] == c);
            return Err("Invalid filename");
        }
        i += 1;
    }
    Ok(())
}

/// A character as it may stand in a quoted header text.
pub open spec fn header_safe(c: char) -> char {
    if c == '"' || c == '\n' || c == '\r' {
        '_'
    } else {
        c
    }
}

/// A text with what would end a quoted header text replaced.
pub open spec fn sanitized(s: Seq<char>) -> Seq<char> {
    Seq::new(s.len(), |i: int| header_safe(s[i]))
}

/// Replaces quotes and line ends by underscores.
pub fn sanitize_for_header(filename: &str) -> (r: String)
    ensures
        r@ == sanitized(filename@),
{
    let chars = chars_of(filename);
    let mut out = String::new();
    let mut i: usize = 0;
    assert(out@ =~= sanitized(chars@.take(0)));
    while i < chars.len()
        invariant
            i <= chars@.len(),
            out@ == sanitized(chars@.take(i as int)),
        decreases chars@.len() - i,
    {
        let c: char = chars[i];
        out.push(if c == '"' || c == '\n' || c == '\r' { '_' } else { c });
        i += 1;
        assert(out@ =~= sanitized(chars@.take(i as int)));
    }
    assert(chars@.take(i as int) =~= chars@);
    out
}

/// The header that names a downloaded file.
pub fn content_disposition(filename: &str) -> (r: String)
    ensures
        r@ == "attachment; filename=\""@ + sanitized(filename@) + "\""@,
{
    let mut out = owned("attachment; filename=\"");
    out.append(sanitize_for_header(filename).as_str());
    out.append("\"");
    out
}

/// Whether an optional name is valid, where it is given.
pub open spec fn valid_option(name: Option<&str>) -> bool {
    match name {
        Some(name) => valid_name(name@),
        None => true,
    }
}

/// Refuses an invalid name.
fn check_name(name: &str) -> (r: Option<Reply>)
    ensures
        r is None == valid_name(name@),
        r matches Some(reply) ==> reply@ == refusal(Status::BadRequest, "Invalid filename"@),
{
    match validate_filename(name) {
        Ok(()) => None,
        Err(e) => Some(refuse(Status::BadRequest, e)),
    }
}

/// Refuses an optional name that is given and invalid.
fn check_option(name: Option<&str>) -> (r: Option<Reply>)
    ensures
        r is None == valid_option(name),
        r matches Some(reply) ==> reply@ == refusal(Status::BadRequest, "Invalid filename"@),
{
    match name {
        Some(name) => check_name(name),
        None => None,
    }
}

/// Why a recording is not started; `None` where it is. The names are looked at first,
/// then whether a recording is running, then the radar.
pub open spec fn start_refusal(
    filename: Option<&str>,
    subdirectory: Option<&str>,
    recording: bool,
    radar_found: bool,
) -> Option<ReplyView> {
    if !valid_option(filename) || !valid_option(subdirectory) {
        Some(refusal(Status::BadRequest, "Invalid filename"@))
    } else if recording {
        Some(refusal(Status::Conflict, "Recording already in progress"@))
    } else if !radar_found {
        Some(refusal(Status::NotFound, "Radar not found"@))
    } else {
        None
    }
}

/// An optional answer, with its text as characters.
pub open spec fn reply_view(r: Option<Reply>) -> Option<ReplyView> {
    match r {
        Some(reply) => Some(reply@),
        None => None,
    }
}

/// Whether to start a recording; where not, the answer.
pub fn check_start_recording(
    filename: Option<&str>,
    subdirectory: Option<&str>,
    recording: bool,
    radar_found: bool,
) -> (r: Option<Reply>)
    ensures
        reply_view(r) == start_refusal(filename, subdirectory, recording, radar_found),
{
    if let Some(reply) = check_option(filename) {
        return Some(reply);
    }
    if let Some(reply) = check_option(subdirectory) {
        return Some(reply);
    }
    if recording {
        return Some(refuse(Status::Conflict, "Recording already in progress"));
    }
    if !radar_found {
        return Some(refuse(Status::NotFound, "Radar not found"));
    }
    None
}

/// The answer after work on disk: what a success is answered with, or the error.
pub fn finished(result: Result<(), String>, success: Reply) -> (r: Reply)
    ensures
        r@ == (match result {
            Ok(_) => success@,
            Err(e) => refusal(Status::InternalServerError, e@),
        }),
{
    match result {
        Ok(_) => success,
        Err(e) => Reply { status: Status::InternalServerError, body: Body::Error(e) },
    }
}

/// The answer to starting a recording or loading one for playback, from how that went.
pub fn opened(result: Result<(), String>) -> (r: Reply)
    ensures
        r@ == (match result {
            Ok(_) => (ReplyView { status: Status::Success, body: BodyView::Content }),
            Err(e) => refusal(Status::InternalServerError, e@),
        }),
{
    finished(result, Reply { status: Status::Success, body: Body::Content })
}

/// The answer to stopping the recording.
pub fn stop_recording(recording: bool) -> (r: Reply)
    ensures
        r@ == (if recording {
            ReplyView { status: Status::Success, body: BodyView::State("stopped"@) }
        } else {
            refusal(Status::NotFound, "No active recording"@)
        }),
{
    if recording {
        Reply { status: Status::Success, body: Body::State(owned("stopped")) }
    } else {
        refuse(Status::NotFound, "No active recording")
    }
}

/// What a client wants of the playback.
#[derive(Clone, Copy, Debug, PartialEq, Eq, Structural)]
pub enum PlaybackCommand {
    Play,
    Pause,
    Stop,
    Seek,
    Settings,
}

/// What a command to a playback that is there is answered with.
pub open spec fn playback_body(command: PlaybackCommand) -> BodyView {
    match command {
        PlaybackCommand::Play => BodyView::State("playing"@),
        PlaybackCommand::Pause => BodyView::State("paused"@),
        PlaybackCommand::Stop => BodyView::State("stopped"@),
        PlaybackCommand::Seek => BodyView::Done,
        PlaybackCommand::Settings => BodyView::Content,
    }
}

/// The answer to a command to the playback.
pub fn playback(command: PlaybackCommand, playing: bool) -> (r: Reply)
    ensures
        r@ == (if playing {
            ReplyView { status: Status::Success, body: playback_body(command) }
        } else {
            refusal(Status::NotFound, "No active playback"@)
        }),
{
    if !playing {
        return refuse(Status::NotFound, "No active playback");
    }
    let body = match command {
        PlaybackCommand::Play => Body::State(owned("playing")),
        PlaybackCommand::Pause => Body::State(owned("paused")),
        PlaybackCommand::Stop => Body::State(owned("stopped")),
        PlaybackCommand::Seek => Body::Done,
        PlaybackCommand::Settings => Body::Content,
    };
    Reply { status: Status::Success, body }
}

/// Whether to look for a recording; where not, the answer.
pub fn check_get_recording(filename: &str) -> (r: Option<Reply>)
    ensures
        reply_view(r) == if valid_name(filename@) {
            None
        } else {
            Some(refusal(Status::BadRequest, "Invalid filename"@))
        },
{
    check_name(filename)
}

/// The answer to asking for a recording, from whether it is there.
pub fn get_recording(found: bool) -> (r: Reply)
    ensures
        r@ == (if found {
            ReplyView { status: Status::Success, body: BodyView::Content }
        } else {
            refusal(Status::NotFound, "Recording not found"@)
        }),
{
    if found {
        Reply { status: Status::Success, body: Body::Content }
    } else {
        refuse(Status::NotFound, "Recording not found")
    }
}

/// What is done to a recording or a directory.
#[derive(Clone, Copy, Debug)]
pub enum FileCommand<'a> {
    DeleteRecording { filename: &'a str },
    RenameRecording { filename: &'a str, new_name: &'a str },
    CreateDirectory { name: &'a str },
    DeleteDirectory { name: &'a str },
}

/// Whether the names of a command are valid.
pub open spec fn valid_command(command: FileCommand) -> bool {
    match command {
        FileCommand::DeleteRecording { filename } => valid_name(filename@),
        FileCommand::RenameRecording { filename, new_name } => valid_name(filename@) && valid_name(
            new_name@,
        ),
        FileCommand::CreateDirectory { name } => valid_name(name@),
        FileCommand::DeleteDirectory { name } => valid_name(name@),
    }
}

/// Whether to do what was asked for; where not, the answer.
pub fn check_file_command(command: FileCommand) -> (r: Option<Reply>)
    ensures
        reply_view(r) == if valid_command(command) {
            None
        } else {
            Some(refusal(Status::BadRequest, "Invalid filename"@))
        },
{
    match command {
        FileCommand::DeleteRecording { filename } => check_name(filename),
        FileCommand::RenameRecording { filename, new_name } => {
            if let Some(reply) = check_name(filename) {
                return Some(reply);
            }
            check_name(new_name)
        },
        FileCommand::CreateDirectory { name } => check_name(name),
        FileCommand::DeleteDirectory { name } => check_name(name),
    }
}

/// The answer to a command, from how it went. Only a new directory counts as created.
pub fn file_command(command: FileCommand, result: Result<(), String>) -> (r: Reply)
    ensures
        r@ == (match result {
            Ok(_) => ReplyView {
                status: if command is CreateDirectory {
                    Status::Created
                } else {
                    Status::Success
                },
                body: BodyView::Done,
            },
            Err(e) => refusal(Status::InternalServerError, e@),
        }),
{
    let status = match command {
        FileCommand::CreateDirectory { .. } => Status::Created,
        _ => Status::Success,
    };
    finished(result, Reply { status, body: Body::Done })
}

/// Whether to look for a recording to download; where not, the answer.
pub fn check_download(filename: &str, subdirectory: Option<&str>) -> (r: Option<Reply>)
    ensures
        reply_view(r) == if valid_name(filename@) && valid_option(subdirectory) {
            None
        } else {
            Some(refusal(Status::BadRequest, "Invalid filename"@))
        },
{
    if let Some(reply) = check_name(filename) {
        return Some(reply);
    }
    check_option(subdirectory)
}

/// The answer when a recording that is there cannot be opened.
pub fn failed_download(error: &str) -> (r: Reply)
    ensures
        r@ == refusal(Status::InternalServerError, "Failed to open file: "@ + error@),
{
    let mut text = owned("Failed to open file: ");
    text.append(error);
    Reply { status: Status::InternalServerError, body: Body::Error(text) }
}

/// The sum of sizes.
pub open spec fn total(sizes: Seq<u64>) -> int
    decreases sizes.len(),
{
    if sizes.len() == 0 {
        0
    } else {
        total(sizes.drop_last()) + sizes.last()
    }
}

proof fn lemma_total(sizes: Seq<u64>, n: int)
    requires
        0 <= n <= sizes.len(),
    ensures
        0 <= total(sizes.take(n)) <= total(sizes),
    decreases sizes.len(),
{
    if n < sizes.len() {
        assert(sizes.drop_last().take(n) =~= sizes.take(n));
        lemma_total(sizes.drop_last(), n);
    } else {
        assert(sizes.take(n) =~= sizes);
        if n > 0 {
            lemma_total(sizes.drop_last(), n - 1);
        }
    }
}

/// The size of all recordings together; `None` where it does not fit.
pub fn total_size(sizes: &[u64]) -> (r: Option<u64>)
    ensures
        r is Some == (total(sizes@) <= u64::MAX),
        r matches Some(n) ==> n == total(sizes@),
{
    let mut sum: u64 = 0;
    let mut i: usize = 0;
    while i < sizes.len()
        invariant
            i <= sizes@.len(),
            sum == total(sizes@.take(i as int)),
        decreases sizes@.len() - i,
    {
        assert(sizes@.take(i + 1).drop_last() =~= sizes@.take(i as int));
        proof {
            lemma_total(sizes@, i + 1);
        }
        if sizes[i] > u64::MAX - sum {
            return None;
        }
        sum += sizes[i];
        i += 1;
    }
    assert(sizes@.take(i as int) =~= sizes@);
    Some(sum)
}

/// A radar as it is listed for recording.
#[derive(Clone, Debug)]
pub struct RecordableRadar {
    pub id: String,
    pub name: String,
    pub brand: String,
}

/// The radars that can be recorded: those that do not play a recording back.
pub open spec fn recordable(radars: Seq<(RecordableRadar, bool)>) -> Seq<RecordableRadar>
    decreases radars.len(),
{
    if radars.len() == 0 {
        seq![]
    } else {
        let before = recordable(radars.drop_last());
        if radars.last().1 {
            before
        } else {
            before.push(radars.last().0)
        }
    }
}

/// The radars that can be recorded, from all active ones, each with whether it plays a
/// recording back.
pub fn get_recordable_radars(radars: Vec<(RecordableRadar, bool)>) -> (r: Vec<RecordableRadar>)
    ensures
        r@ == recordable(radars@),
{
    let mut out: Vec<RecordableRadar> = Vec::new();
    for entry in iter: radars
        invariant
            iter.seq() == radars@,
            out@ == recordable(radars@.take(iter.index())),
    {
        assert(radars@.take(iter.index() + 1).drop_last() =~= radars@.take(iter.index()));
        if !entry.1 {
            out.push(entry.0);
        }
    }
    assert(radars@.take(radars@.len() as int) =~= radars@);
    out
}

/// A sanitized text has no quote and no line end, keeps its length, and is not changed
/// again.
pub proof fn law_sanitized_is_safe(s: Seq<char>)
    ensures
        sanitized(s).len() == s.len(),
        !sanitized(s).contains('"'),
        !sanitized(s).contains('\n'),
        !sanitized(s).contains('\r'),
        sanitized(sanitized(s)) == sanitized(s),
{
    assert(sanitized(sanitized(s)) =~= sanitized(s));
}

/// A name that was accepted stays in its directory: it has no separator, and it is not
/// the directory or its parent.
pub proof fn law_valid_name_stays_in_directory(s: Seq<char>)
    requires
        valid_name(s),
    ensures
        !s.contains('/'),
        !s.contains('\\'),
        s != "."@,
        s != ".."@,
{
    reveal_strlit(".");
    reveal_strlit("..");
}

/// The statuses by their numbers.
pub proof fn law_status_numbers(a: Status, b: Status)
    ensures
        a.number() == b.number() ==> a == b,
        200 <= Status::Success.number() < Status::Created.number() < 300,
        Status::BadRequest.number() == 400,
        Status::NotFound.number() == 404,
        Status::Conflict.number() == 409,
        Status::InternalServerError.number() == 500,
        Status::Success.number() == 200 && Status::Created.number() == 201,
{
}

/// A recording is started where the names are good, none is running and the radar is there,
/// and in no other case; each refusal has its reason.
pub proof fn law_recording_starts(
    filename: Option<&str>,
    subdirectory: Option<&str>,
    recording: bool,
    radar_found: bool,
)
    ensures
        ({
            let r = start_refusal(filename, subdirectory, recording, radar_found);
            let good = (filename matches Some(f) ==> valid_name(f@)) && (subdirectory matches Some(d)
                ==> valid_name(d@));
            &&& r is None <==> good && !recording && radar_found
            &&& !good ==> r->0.status.number() == 400
            &&& good && recording ==> r->0.status.number() == 409
            &&& good && !recording && !radar_found ==> r->0.status.number() == 404
        }),
{
}

/// Only the characters that end a quoted header text are replaced.
pub proof fn law_sanitized_keeps_the_rest(s: Seq<char>, i: int)
    requires
        0 <= i < s.len(),
    ensures
        s[i] != '"' && s[i] != '\n' && s[i] != '\r' ==> sanitized(s)[i] == s[i],
        s[i] == '"' || s[i] == '\n' || s[i] == '\r' ==> sanitized(s)[i] == '_',
{
}

/// A name that can go wrong is refused, and any other is accepted.
pub proof fn law_names_are_judged(s: Seq<char>, i: int)
    ensures
        0 <= i < s.len() && (s[i] == '/' || s[i] == '\\' || s[i] as u32 > 0x7f) ==> !valid_name(s),
        0 <= i < s.len() - 1 && s[i] == '.' && s[i + 1] == '.' ==> !valid_name(s),
        s.len() == 0 || s[0] == '.' ==> !valid_name(s),
        s.len() > 0 && s[0] != '.' && (forall|k: int|
            0 <= k < s.len() ==> (#[trigger] s[k]) != '/' && s[k] != '\\' && s[k] as u32 <= 0x7f)
            && (forall|k: int| 0 < k < s.len() ==> s[k - 1] != '.' || (#[trigger] s[k]) != '.')
            ==> valid_name(s),
{
    reveal_strlit("..");
    if 0 <= i < s.len() - 1 && s[i] == '.' && s[i + 1] == '.' {
        assert(s.subrange(i, i + 2) =~= ".."@);
        assert(text::occurs_at(s, ".."@, i));
    }
    if text::contains_text(s, ".."@) {
        let at = choose|at: int| text::occurs_at(s, ".."@, at);
        assert(s.subrange(at, at + 2)[0] == s[at] && s.subrange(at, at + 2)[1] == s[at + 1]);
        assert(s[at] == '.' && s[(at + 1) as int] == '.');
    }
}

/// The sizes of two lists together are the sum of theirs.
pub proof fn law_sizes_add_up(a: Seq<u64>, b: Seq<u64>, x: u64)
    ensures
        total(a + b) == total(a) + total(b),
        total(seq![x]) == x,
    decreases b.len(),
{
    assert(seq![x].drop_last() =~= Seq::<u64>::empty());
    assert(total(Seq::<u64>::empty()) == 0);
    if b.len() == 0 {
        assert(a + b =~= a);
    } else {
        assert((a + b).drop_last() =~= a + b.drop_last());
        law_sizes_add_up(a, b.drop_last(), x);
    }
}

/// A radar can be recorded where it does not play a recording back, and only there; those
/// that can stay in their order.
pub proof fn law_only_live_radars_are_recordable(
    a: Seq<(RecordableRadar, bool)>,
    b: Seq<(RecordableRadar, bool)>,
    radar: RecordableRadar,
)
    ensures
        recordable(seq![(radar, false)]) == seq![radar],
        recordable(seq![(radar, true)]).len() == 0,
        recordable(a + b) == recordable(a) + recordable(b),
    decreases b.len(),
{
    assert(seq![(radar, false)].drop_last() =~= Seq::<(RecordableRadar, bool)>::empty());
    assert(seq![(radar, true)].drop_last() =~= Seq::<(RecordableRadar, bool)>::empty());
    assert(recordable(Seq::<(RecordableRadar, bool)>::empty()) =~= Seq::<RecordableRadar>::empty());
    assert(recordable(seq![(radar, false)]) =~= seq![radar]);
    if b.len() == 0 {
        assert(a + b =~= a);
        assert(recordable(a) + recordable(b) =~= recordable(a));
    } else {
        assert((a + b).drop_last() =~= a + b.drop_last());
        law_only_live_radars_are_recordable(a, b.drop_last(), radar);
        assert(recordable(a + b) =~= recordable(a) + recordable(b));
    }
}

/// A recording is renamed where both names are good; everything else needs its one name to
/// be.
pub proof fn law_commands_need_good_names(a: &str, b: &str)
    ensures
        valid_command(FileCommand::RenameRecording { filename: a, new_name: b }) <==> valid_name(a@)
            && valid_name(b@),
        valid_command(FileCommand::DeleteRecording { filename: a }) <==> valid_name(a@),
        valid_command(FileCommand::CreateDirectory { name: a }) <==> valid_name(a@),
        valid_command(FileCommand::DeleteDirectory { name: a }) <==> valid_name(a@),
        valid_option(None),
        valid_option(Some(a)) <==> valid_name(a@),
{
}

/// A command to a playback is answered with the state that it leads to.
pub proof fn law_playback_states()
    ensures
        playback_body(PlaybackCommand::Play) == BodyView::State("playing"@),
        playback_body(PlaybackCommand::Pause) == BodyView::State("paused"@),
        playback_body(PlaybackCommand::Stop) == BodyView::State("stopped"@),
        playback_body(PlaybackCommand::Seek) is Done,
        playback_body(PlaybackCommand::Settings) is Content,
{
}

} // verus!
