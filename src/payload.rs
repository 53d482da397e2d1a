//! The data that the launcher's requests carry and that it sends to the interface.
use vstd::prelude::*;
use vstd::string::StringExecFns;

verus! {

/// A banner image of the launcher page, and where it links to.
#[derive(Clone, Debug)]
pub struct BannerData {
    pub src: String,
    pub link: String,
}

/// The kind of a launcher message.
#[derive(Clone, Copy, Debug, PartialEq, Eq, Structural)]
pub enum MessageKind {
    Default,
    New,
}

/// A message of the launcher page.
#[derive(Clone, Debug)]
pub struct MessageData {
    pub message: String,
    pub date: i32,
    pub link: String,
    pub kind: MessageKind,
}

/// A link of the launcher page.
#[derive(Clone, Debug)]
pub struct LinkData {
    pub name: String,
    pub link: String,
    pub icon: String,
}

/// The launcher page of a server.
#[derive(Clone, Debug)]
pub struct LauncherResponse {
    pub banners: Vec<BannerData>,
    pub messages: Vec<MessageData>,
    pub links: Vec<LinkData>,
}

/// The account that a login returned.
#[derive(Clone, Debug)]
pub struct UserData {
    pub token_id: u32,
    pub token: String,
    pub rights: u32,
}

/// A character of the account.
#[derive(Clone, Debug)]
pub struct CharacterData {
    pub id: u32,
    pub name: String,
    pub is_female: bool,
    pub weapon: u32,
    pub hr: u32,
    pub gr: u32,
    pub last_login: u32,
}

/// The state of the running festival event.
#[derive(Clone, Debug)]
pub struct MezFesData {
    pub id: u32,
    pub start: u32,
    pub end: u32,
    pub solo_tickets: u32,
    pub group_tickets: u32,
    pub stalls: Vec<u32>,
}

/// The body of a login or registration request.
#[derive(Debug)]
pub struct AuthRequest<'a> {
    pub username: &'a str,
    pub password: &'a str,
}

/// What a login or registration returns, including the patch server's base URL
/// (empty when the server has no patches).
#[derive(Clone, Debug)]
pub struct AuthResponse {
    pub current_ts: u32,
    pub expiry_ts: u32,
    pub entrance_count: u32,
    pub notices: Vec<String>,
    pub user: UserData,
    pub characters: Vec<CharacterData>,
    pub mez_fez: Option<MezFesData>,
    pub patch_server: String,
}

/// The empty body of an answer that carries no data.
#[derive(Clone, Debug)]
pub struct EmptyResponse {}

/// What the interface receives after a login: the response, and whether a patch
/// is waiting to be applied.
#[derive(Clone, Debug)]
pub struct AuthPayload {
    pub response: AuthResponse,
    pub has_patch: bool,
}

/// A log line for the interface, with its level.
#[derive(Clone, Debug)]
pub struct LogPayload {
    pub level: String,
    pub message: String,
}

impl LogPayload {
    /// A log line at level `error`.
    pub fn error(message: &str) -> (r: LogPayload)
        ensures
            r.level@ == "error"@,
            r.message@ == message@,
    {
        LogPayload { level: String::from_str("error"), message: String::from_str(message) }
    }

    /// A log line at level `warning`.
    pub fn warning(message: &str) -> (r: LogPayload)
        ensures
            r.level@ == "warning"@,
            r.message@ == message@,
    {
        LogPayload { level: String::from_str("warning"), message: String::from_str(message) }
    }
}

} // verus!
