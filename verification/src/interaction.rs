use vstd::prelude::*;
use crate::attachment::{exceeds_size_limit, over_limit, AttachmentError};
use crate::data::GuildDetails;
use crate::localizable::same_text;

verus! {

/// The value that the platform resolved for an option.
pub enum Resolved {
    Attachment { size: u64, filename: String },
    Text(String),
    Role { guild_id: u64, role_id: u64 },
    Other,
}

/// One option of a command as a user sent it.
pub struct CommandOption {
    pub name: String,
    pub resolved: Option<Resolved>,
    pub options: Vec<CommandOption>,
}

/// A command as a user sent it.
pub struct CommandCall {
    pub name: String,
    pub user_id: u64,
    pub guild_id: Option<u64>,
    pub options: Vec<CommandOption>,
}

/// What an administrator asked for.
#[derive(Clone, Copy, Debug, PartialEq, Eq, Structural)]
pub enum AdminRequest {
    /// Restrict the guild's chimes to the holders of a role.
    Forbid { guild_id: u64, role_id: u64 },
    /// Nothing that is understood.
    Nothing,
}

/// What a command asks for.
pub enum Request {
    /// The command is not the bot's.
    Foreign,
    /// The command has no option.
    Empty,
    /// Strike the user's chime.
    Clear,
    /// `set` without exactly one option under exactly one option.
    Malformed,
    /// Take the attached file as the user's chime.
    SetFile { size: u64, filename: String },
    /// Take what is behind the link as the user's chime.
    SetUrl { url: String },
    /// `set` with a value that is neither a file nor a link.
    Unusable,
    /// An administrator's command.
    Admin(AdminRequest),
    /// An option that the bot does not know.
    Unknown,
}

/// What the `admin` option asks for.
pub open spec fn admin_of(base: CommandOption) -> AdminRequest {
    if base.options@.len() == 0 {
        AdminRequest::Nothing
    } else {
        let sub = base.options@[0];
        if sub.name@ == "forbid"@ && sub.options@.len() > 0 {
            match sub.options@[0].resolved {
                Some(Resolved::Role { guild_id, role_id }) => AdminRequest::Forbid {
                    guild_id,
                    role_id,
                },
                _ => AdminRequest::Nothing,
            }
        } else {
            AdminRequest::Nothing
        }
    }
}

/// What the `set` option asks for.
pub open spec fn set_of(base: CommandOption) -> Request {
    if base.options@.len() != 1 || base.options@[0].options@.len() != 1 {
        Request::Malformed
    } else {
        match base.options@[0].options@[0].resolved {
            Some(Resolved::Attachment { size, filename }) => Request::SetFile { size, filename },
            Some(Resolved::Text(url)) => Request::SetUrl { url },
            _ => Request::Unusable,
        }
    }
}

/// What a command asks for, where the bot's command is named `root`. Only
/// the first option counts.
pub open spec fn request_of(call: CommandCall, root: Seq<char>) -> Request {
    if call.name@ != root {
        Request::Foreign
    } else if call.options@.len() == 0 {
        Request::Empty
    } else {
        let base = call.options@[0];
        if base.name@ == "clear"@ {
            Request::Clear
        } else if base.name@ == "set"@ {
            set_of(base)
        } else if base.name@ == "admin"@ {
            Request::Admin(admin_of(base))
        } else {
            Request::Unknown
        }
    }
}

fn read_admin(base: &CommandOption) -> (r: AdminRequest)
    ensures
        r == admin_of(*base),
{
    if base.options.len() == 0 {
        return AdminRequest::Nothing;
    }
    let sub = &base.options[0];
    if same_text(sub.name.as_str(), "forbid") && sub.options.len() > 0 {
        match &sub.options[0].resolved {
            Some(Resolved::Role { guild_id, role_id }) => AdminRequest::Forbid {
                guild_id: *guild_id,
                role_id: *role_id,
            },
            _ => AdminRequest::Nothing,
        }
    } else {
        AdminRequest::Nothing
    }
}

fn read_set(base: &CommandOption) -> (r: Request)
    ensures
        r == set_of(*base),
{
    if base.options.len() != 1 || base.options[0].options.len() != 1 {
        return Request::Malformed;
    }
    match &base.options[0].options[0].resolved {
        Some(Resolved::Attachment { size, filename }) => Request::SetFile {
            size: *size,
            filename: filename.clone(),
        },
        Some(Resolved::Text(url)) => Request::SetUrl { url: url.clone() },
        _ => Request::Unusable,
    }
}

/// Reads what a command asks for.
pub fn read_request(call: &CommandCall, root: &str) -> (r: Request)
    ensures
        r == request_of(*call, root@),
{
    if !same_text(call.name.as_str(), root) {
        return Request::Foreign;
    }
    if call.options.len() == 0 {
        return Request::Empty;
    }
    let base = &call.options[0];
    if same_text(base.name.as_str(), "clear") {
        Request::Clear
    } else if same_text(base.name.as_str(), "set") {
        read_set(base)
    } else if same_text(base.name.as_str(), "admin") {
        Request::Admin(read_admin(base))
    } else {
        Request::Unknown
    }
}

/// The message that an answer to the user is made from.
pub enum ReplyKey {
    Success,
    Fail,
    FileTooLarge,
    DownloadFailed,
    BadUrl,
    OnlyInGuilds,
    MissingPermissions,
    InternalError,
    /// Why the chime was not taken.
    Rejected(AttachmentError),
    /// A text that the outside supplied.
    Text(String),
}

impl ReplyKey {
    /// The message's name.
    pub open spec fn spec_text(&self) -> Seq<char> {
        match self {
            ReplyKey::Success => "success"@,
            ReplyKey::Fail => "fail"@,
            ReplyKey::FileTooLarge => "file-too-large"@,
            ReplyKey::DownloadFailed => "download-failed"@,
            ReplyKey::BadUrl => "bad-url"@,
            ReplyKey::OnlyInGuilds => "only-in-guilds"@,
            ReplyKey::MissingPermissions => "missing-permissions"@,
            ReplyKey::InternalError => "internal-error"@,
            ReplyKey::Rejected(e) => e.spec_message(),
            ReplyKey::Text(t) => t@,
        }
    }

    /// The message's name.
    pub fn text(&self) -> (s: String)
        ensures
            s@ == self.spec_text(),
    {
        match self {
            ReplyKey::Success => "success".to_string(),
            ReplyKey::Fail => "fail".to_string(),
            ReplyKey::FileTooLarge => "file-too-large".to_string(),
            ReplyKey::DownloadFailed => "download-failed".to_string(),
            ReplyKey::BadUrl => "bad-url".to_string(),
            ReplyKey::OnlyInGuilds => "only-in-guilds".to_string(),
            ReplyKey::MissingPermissions => "missing-permissions".to_string(),
            ReplyKey::InternalError => "internal-error".to_string(),
            ReplyKey::Rejected(e) => e.message(),
            ReplyKey::Text(t) => t.clone(),
        }
    }
}

/// The message for an answer: what was given, or else the plain word for
/// how it went.
pub fn respond(success: bool, info: Option<ReplyKey>) -> (key: ReplyKey)
    ensures
        key == (match info {
            Some(given) => given,
            None => if success {
                ReplyKey::Success
            } else {
                ReplyKey::Fail
            },
        }),
{
    match info {
        Some(given) => given,
        None => if success {
            ReplyKey::Success
        } else {
            ReplyKey::Fail
        },
    }
}

/// Where the handling of a command stands.
pub enum Phase {
    /// Waiting for the user's chime to be struck.
    Clearing,
    /// Waiting for the attached file.
    FetchingFile { filename: String },
    /// Waiting for the attached file to be checked and stored.
    StoringFile,
    /// Waiting for the first answer from behind the link.
    Requesting,
    /// Waiting for the data from behind the link.
    FetchingBody,
    /// Waiting for the linked data to be checked and stored.
    StoringBody,
    /// Waiting to hear whether the user is a member of the guild.
    ResolvingMember { admin: AdminRequest },
    /// Waiting for the member's permissions.
    ResolvingPermissions { admin: AdminRequest },
    /// Waiting for what is on record of the guild.
    LoadingDetails { guild_id: u64, role_id: u64 },
    /// Waiting for the guild's record to be written.
    SavingDetails,
    /// Nothing is left to do.
    Done,
}

/// What the outside did or found.
pub enum Outcome {
    /// The user's chime has been struck.
    Cleared,
    /// Whether the attached file was had.
    FileFetched(bool),
    /// Whether the chime was checked and stored.
    Stored(Result<(), AttachmentError>),
    /// The first answer from behind the link: nothing where the request
    /// failed; else the length that it announces, if it announces one.
    Answered(Option<Option<u64>>),
    /// Whether the linked data was had; if not, why.
    BodyFetched(Result<(), String>),
    /// Whether the user is a member of the guild.
    Member(bool),
    /// Whether the member is an administrator and whether they may manage
    /// the guild; nothing where that could not be had.
    Permissions(Option<(bool, bool)>),
    /// What is on record of the guild.
    Details(Option<GuildDetails>),
    /// Whether the guild's record was written.
    Saved(bool),
}

/// What the outside is to do next.
pub enum Task {
    /// Strike the user's chime.
    Clear { user_id: u64 },
    /// Fetch the attached file.
    FetchFile,
    /// Check the data and store it as the user's chime, under the given
    /// file name where there is one.
    Store { filename: Option<String> },
    /// Ask for what is behind the link.
    Request { url: String },
    /// Fetch the data from behind the link.
    FetchBody,
    /// Find the user among the guild's members.
    ResolveMember { guild_id: u64, user_id: u64 },
    /// Find the member's permissions.
    ResolvePermissions,
    /// Read what is on record of the guild.
    LoadDetails { guild_id: u64 },
    /// Write the guild's record.
    SaveDetails(GuildDetails),
    /// Answer the user, if there is an answer, note the platform context
    /// as the latest if so told, and be done.
    Finish { reply: Option<ReplyKey>, note_context: bool },
}

/// The end of a command without an answer.
pub open spec fn silent(note_context: bool) -> (Phase, Task) {
    (Phase::Done, Task::Finish { reply: None, note_context })
}

/// The end of a command with an answer.
pub open spec fn answer(key: ReplyKey, note_context: bool) -> (Phase, Task) {
    (Phase::Done, Task::Finish { reply: Some(key), note_context })
}

/// How the handling of a request begins. `url_ok` tells whether the link
/// of a `SetUrl` request is a proper address.
pub open spec fn begun(
    request: Request,
    user_id: u64,
    guild_id: Option<u64>,
    size_limit: isize,
    url_ok: bool,
) -> (Phase, Task) {
    match request {
        Request::Foreign => silent(false),
        Request::Empty => silent(false),
        Request::Malformed => silent(false),
        Request::Unusable => silent(true),
        Request::Unknown => silent(true),
        Request::Clear => (Phase::Clearing, Task::Clear { user_id }),
        Request::SetFile { size, filename } => if over_limit(size_limit, size) {
            answer(ReplyKey::FileTooLarge, false)
        } else {
            (Phase::FetchingFile { filename }, Task::FetchFile)
        },
        Request::SetUrl { url } => if url_ok {
            (Phase::Requesting, Task::Request { url })
        } else {
            answer(ReplyKey::BadUrl, false)
        },
        Request::Admin(admin) => match guild_id {
            Some(guild_id) => (
                Phase::ResolvingMember { admin },
                Task::ResolveMember { guild_id, user_id },
            ),
            None => answer(ReplyKey::OnlyInGuilds, false),
        },
    }
}

/// How the handling of a command goes on: from the phase it is in and what
/// the outside reports to the phase it enters and the task it sets.
///
/// A report that the phase was not waiting for ends the command in silence.
pub open spec fn advanced(phase: Phase, outcome: Outcome, size_limit: isize) -> (Phase, Task) {
    match (phase, outcome) {
        (Phase::Clearing, Outcome::Cleared) => answer(ReplyKey::Success, true),
        (Phase::FetchingFile { filename }, Outcome::FileFetched(true)) => (
            Phase::StoringFile,
            Task::Store { filename: Some(filename) },
        ),
        (Phase::FetchingFile { filename }, Outcome::FileFetched(false)) => answer(
            ReplyKey::DownloadFailed,
            false,
        ),
        (Phase::StoringFile, Outcome::Stored(Ok(()))) => answer(ReplyKey::Success, true),
        (Phase::StoringFile, Outcome::Stored(Err(_))) => answer(ReplyKey::Fail, false),
        (Phase::Requesting, Outcome::Answered(Some(Some(size)))) => if over_limit(
            size_limit,
            size,
        ) {
            answer(ReplyKey::FileTooLarge, false)
        } else {
            (Phase::FetchingBody, Task::FetchBody)
        },
        (Phase::Requesting, Outcome::Answered(_)) => answer(ReplyKey::BadUrl, false),
        (Phase::FetchingBody, Outcome::BodyFetched(Ok(()))) => (
            Phase::StoringBody,
            Task::Store { filename: None },
        ),
        (Phase::FetchingBody, Outcome::BodyFetched(Err(why))) => answer(
            ReplyKey::Text(why),
            false,
        ),
        (Phase::StoringBody, Outcome::Stored(Ok(()))) => answer(ReplyKey::Success, true),
        (Phase::StoringBody, Outcome::Stored(Err(e))) => answer(ReplyKey::Rejected(e), false),
        (Phase::ResolvingMember { admin }, Outcome::Member(true)) => (
            Phase::ResolvingPermissions { admin },
            Task::ResolvePermissions,
        ),
        (Phase::ResolvingMember { admin }, Outcome::Member(false)) => answer(
            ReplyKey::Fail,
            false,
        ),
        (Phase::ResolvingPermissions { admin }, Outcome::Permissions(Some(held))) => if !(held.0
            || held.1) {
            answer(ReplyKey::MissingPermissions, false)
        } else {
            match admin {
                AdminRequest::Forbid { guild_id, role_id } => (
                    Phase::LoadingDetails { guild_id, role_id },
                    Task::LoadDetails { guild_id },
                ),
                AdminRequest::Nothing => silent(true),
            }
        },
        (Phase::ResolvingPermissions { admin }, Outcome::Permissions(None)) => answer(
            ReplyKey::Fail,
            false,
        ),
        (Phase::LoadingDetails { guild_id, role_id }, Outcome::Details(_)) => (
            Phase::SavingDetails,
            Task::SaveDetails(GuildDetails { id: guild_id, blocked_role_id: Some(role_id) }),
        ),
        (Phase::SavingDetails, Outcome::Saved(true)) => answer(ReplyKey::Success, true),
        (Phase::SavingDetails, Outcome::Saved(false)) => answer(ReplyKey::InternalError, true),
        _ => silent(false),
    }
}

/// Names the result of `url::Url::parse`: whether it takes the text as an
/// absolute address.
pub uninterp spec fn is_address(text: Seq<char>) -> bool;

/// `url::Url::parse`: whether the text parses as an absolute address.
#[verifier::external_body]
fn parses_as_address(text: &str) -> (r: bool)
    ensures
        r == is_address(text@),
{
    url::Url::parse(text).is_ok()
}

/// Begins the handling of a request, given whether its link, if it has
/// one, is a proper address.
pub fn begin_with(
    request: Request,
    user_id: u64,
    guild_id: Option<u64>,
    size_limit: isize,
    url_ok: bool,
) -> (r: (Phase, Task))
    ensures
        r == begun(request, user_id, guild_id, size_limit, url_ok),
{
    match request {
        Request::Foreign => (Phase::Done, Task::Finish { reply: None, note_context: false }),
        Request::Empty => (Phase::Done, Task::Finish { reply: None, note_context: false }),
        Request::Malformed => (Phase::Done, Task::Finish { reply: None, note_context: false }),
        Request::Unusable => (Phase::Done, Task::Finish { reply: None, note_context: true }),
        Request::Unknown => (Phase::Done, Task::Finish { reply: None, note_context: true }),
        Request::Clear => (Phase::Clearing, Task::Clear { user_id }),
        Request::SetFile { size, filename } => {
            if exceeds_size_limit(size_limit, size) {
                finish(ReplyKey::FileTooLarge, false)
            } else {
                (Phase::FetchingFile { filename }, Task::FetchFile)
            }
        },
        Request::SetUrl { url } => {
            if url_ok {
                (Phase::Requesting, Task::Request { url })
            } else {
                finish(ReplyKey::BadUrl, false)
            }
        },
        Request::Admin(admin) => match guild_id {
            Some(guild_id) => (
                Phase::ResolvingMember { admin },
                Task::ResolveMember { guild_id, user_id },
            ),
            None => finish(ReplyKey::OnlyInGuilds, false),
        },
    }
}

fn finish(key: ReplyKey, note_context: bool) -> (r: (Phase, Task))
    ensures
        r == answer(key, note_context),
{
    (Phase::Done, Task::Finish { reply: Some(key), note_context })
}

/// The link of a request, if it has one.
pub open spec fn link_of(request: Request) -> Option<String> {
    match request {
        Request::SetUrl { url } => Some(url),
        _ => None,
    }
}

/// Begins the handling of a command: reads what it asks for, has the link
/// checked where there is one, and sets the first task.
pub fn begin(call: &CommandCall, root: &str, size_limit: isize) -> (r: (Phase, Task))
    ensures
        r == begun(
            request_of(*call, root@),
            call.user_id,
            call.guild_id,
            size_limit,
            match link_of(request_of(*call, root@)) {
                Some(url) => is_address(url@),
                None => false,
            },
        ),
{
    let request = read_request(call, root);
    let url_ok = match &request {
        Request::SetUrl { url } => parses_as_address(url.as_str()),
        _ => false,
    };
    begin_with(request, call.user_id, call.guild_id, size_limit, url_ok)
}

/// Takes a report and goes on with the command.
pub fn advance(phase: Phase, outcome: Outcome, size_limit: isize) -> (r: (Phase, Task))
    ensures
        r == advanced(phase, outcome, size_limit),
{
    match (phase, outcome) {
        (Phase::Clearing, Outcome::Cleared) => finish(ReplyKey::Success, true),
        (Phase::FetchingFile { filename }, Outcome::FileFetched(true)) => (
            Phase::StoringFile,
            Task::Store { filename: Some(filename) },
        ),
        (Phase::FetchingFile { filename }, Outcome::FileFetched(false)) => finish(
            ReplyKey::DownloadFailed,
            false,
        ),
        (Phase::StoringFile, Outcome::Stored(Ok(()))) => finish(ReplyKey::Success, true),
        (Phase::StoringFile, Outcome::Stored(Err(_))) => finish(ReplyKey::Fail, false),
        (Phase::Requesting, Outcome::Answered(Some(Some(size)))) => {
            if exceeds_size_limit(size_limit, size) {
                finish(ReplyKey::FileTooLarge, false)
            } else {
                (Phase::FetchingBody, Task::FetchBody)
            }
        },
        (Phase::Requesting, Outcome::Answered(_)) => finish(ReplyKey::BadUrl, false),
        (Phase::FetchingBody, Outcome::BodyFetched(Ok(()))) => (
            Phase::StoringBody,
            Task::Store { filename: None },
        ),
        (Phase::FetchingBody, Outcome::BodyFetched(Err(why))) => finish(
            ReplyKey::Text(why),
            false,
        ),
        (Phase::StoringBody, Outcome::Stored(Ok(()))) => finish(ReplyKey::Success, true),
        (Phase::StoringBody, Outcome::Stored(Err(e))) => finish(ReplyKey::Rejected(e), false),
        (Phase::ResolvingMember { admin }, Outcome::Member(true)) => (
            Phase::ResolvingPermissions { admin },
            Task::ResolvePermissions,
        ),
        (Phase::ResolvingMember { admin }, Outcome::Member(false)) => finish(
            ReplyKey::Fail,
            false,
        ),
        (Phase::ResolvingPermissions { admin }, Outcome::Permissions(Some(held))) => {
            if !(held.0 || held.1) {
                finish(ReplyKey::MissingPermissions, false)
            } else {
                match admin {
                    AdminRequest::Forbid { guild_id, role_id } => (
                        Phase::LoadingDetails { guild_id, role_id },
                        Task::LoadDetails { guild_id },
                    ),
                    AdminRequest::Nothing => (
                        Phase::Done,
                        Task::Finish { reply: None, note_context: true },
                    ),
                }
            }
        },
        (Phase::ResolvingPermissions { admin }, Outcome::Permissions(None)) => finish(
            ReplyKey::Fail,
            false,
        ),
        (Phase::LoadingDetails { guild_id, role_id }, Outcome::Details(found)) => (
            Phase::SavingDetails,
            Task::SaveDetails(GuildDetails::restricted_to(found, guild_id, role_id)),
        ),
        (Phase::SavingDetails, Outcome::Saved(true)) => finish(ReplyKey::Success, true),
        (Phase::SavingDetails, Outcome::Saved(false)) => finish(ReplyKey::InternalError, true),
        _ => (Phase::Done, Task::Finish { reply: None, note_context: false }),
    }
}

/// A file or a download over the size limit is never fetched: the command
/// ends with the answer that the file is too large.
pub proof fn lemma_oversized_is_never_fetched(
    user_id: u64,
    guild_id: Option<u64>,
    size_limit: isize,
    size: u64,
    filename: String,
    url_ok: bool,
)
    requires
        over_limit(size_limit, size),
    ensures
        begun(Request::SetFile { size, filename }, user_id, guild_id, size_limit, url_ok) == answer(
            ReplyKey::FileTooLarge,
            false,
        ),
        advanced(Phase::Requesting, Outcome::Answered(Some(Some(size))), size_limit) == answer(
            ReplyKey::FileTooLarge,
            false,
        ),
{
}

/// A guild's record is written only for an administrator or a manager of
/// the guild, and only to restrict it to the role that was asked for.
pub proof fn lemma_record_needs_permission(phase: Phase, outcome: Outcome, size_limit: isize)
    requires
        advanced(phase, outcome, size_limit).1 is LoadDetails,
    ensures
        phase is ResolvingPermissions,
        outcome is Permissions,
        outcome->Permissions_0 matches Some(held) && (held.0 || held.1),
        phase->ResolvingPermissions_admin matches AdminRequest::Forbid { guild_id, role_id }
            && advanced(phase, outcome, size_limit) == (
            Phase::LoadingDetails { guild_id, role_id },
            Task::LoadDetails { guild_id },
        ),
{
}

/// Every task but `Finish` leaves the command waiting for its report, and
/// `Finish` leaves it done.
pub proof fn lemma_done_exactly_on_finish(phase: Phase, outcome: Outcome, size_limit: isize)
    ensures
        advanced(phase, outcome, size_limit).0 is Done <==> advanced(
            phase,
            outcome,
            size_limit,
        ).1 is Finish,
{
}

} // verus!
