//! Authorizing a slash command and deciding what it asks for.

use vstd::prelude::*;

verus! {

pub const COMMAND_NAME: &'static str = "/mygithub";
pub const HELP_TEXT: &'static str = "help";
pub const HEALTH_CHECK_TEXT: &'static str = "health-check";
pub const CREATE_NOTIFICATION_TEXT: &'static str = "create-notification";
pub const INVALID_TOKEN_MESSAGE: &'static str = "Invalid token";
pub const INVALID_COMMAND_MESSAGE: &'static str = "Invalid command";
pub const INVALID_TEXT_MESSAGE: &'static str = "Invalid text";
pub const HELP_REPLY: &'static str = "Please provide command like \"health-check\", \"create-notification\"";
pub const HEALTH_CHECK_REPLY: &'static str = "Health Check OK";
pub const DONE_REPLY: &'static str = "ok";
pub const STATUS_OK: u16 = 200;
pub const STATUS_BAD_REQUEST: u16 = 400;

/// A slash command as the chat service posts it. Only the token, the command
/// and the text take part in the decisions; the rest passes through.
#[derive(Debug)]
pub struct SlashCommandPayload {
    pub token: String,
    pub team_id: String,
    pub team_domain: String,
    pub channel_id: String,
    pub channel_name: String,
    pub user_id: String,
    pub user_name: String,
    pub command: String,
    pub text: String,
    pub response_url: String,
}

/// An authorized command: its name and its sub-command text.
#[derive(Debug)]
pub struct SlackCommandRequest {
    pub command: String,
    pub text: String,
}

/// Why a slash command was rejected.
#[derive(Debug, Clone, Copy, PartialEq, Eq, Structural)]
pub enum AuthError {
    InvalidToken,
    InvalidCommand,
    InvalidText,
}

/// The command names that are served.
pub open spec fn is_available_command(command: Seq<char>) -> bool {
    command == COMMAND_NAME@
}

/// The sub-command texts that are served.
pub open spec fn is_available_text(text: Seq<char>) -> bool {
    text == HELP_TEXT@ || text == HEALTH_CHECK_TEXT@ || text == CREATE_NOTIFICATION_TEXT@
}

/// The checks in order: the shared token, then the command, then the text.
pub open spec fn authorize(
    token: Seq<char>,
    command: Seq<char>,
    text: Seq<char>,
    expected_token: Seq<char>,
) -> Result<(), AuthError> {
    if token != expected_token {
        Err(AuthError::InvalidToken)
    } else if !is_available_command(command) {
        Err(AuthError::InvalidCommand)
    } else if !is_available_text(text) {
        Err(AuthError::InvalidText)
    } else {
        Ok(())
    }
}

impl AuthError {
    pub open spec fn message_spec(&self) -> Seq<char> {
        match self {
            AuthError::InvalidToken => INVALID_TOKEN_MESSAGE@,
            AuthError::InvalidCommand => INVALID_COMMAND_MESSAGE@,
            AuthError::InvalidText => INVALID_TEXT_MESSAGE@,
        }
    }

    /// The rejection text shown to the caller.
    pub fn message(&self) -> (r: String)
        ensures
            r@ == self.message_spec(),
    {
        match self {
            AuthError::InvalidToken => String::from_str(INVALID_TOKEN_MESSAGE),
            AuthError::InvalidCommand => String::from_str(INVALID_COMMAND_MESSAGE),
            AuthError::InvalidText => String::from_str(INVALID_TEXT_MESSAGE),
        }
    }
}

/// Checks a payload against the shared secret and the served commands and
/// texts; on success hands back the command and text verbatim.
pub fn validate_slash_command_payload(
    payload: &SlashCommandPayload,
    expected_token: &str,
) -> (r: Result<SlackCommandRequest, AuthError>)
    ensures
        match authorize(payload.token@, payload.command@, payload.text@, expected_token@) {
            Ok(()) => r matches Ok(req) && req.command@ == payload.command@ && req.text@
                == payload.text@,
            Err(e) => r matches Err(e2) && e2 == e,
        },
{
    if payload.token != String::from_str(expected_token) {
        return Err(AuthError::InvalidToken);
    }
    if payload.command != String::from_str(COMMAND_NAME) {
        return Err(AuthError::InvalidCommand);
    }
    if payload.text != String::from_str(HELP_TEXT) && payload.text != String::from_str(
        HEALTH_CHECK_TEXT,
    ) && payload.text != String::from_str(CREATE_NOTIFICATION_TEXT) {
        return Err(AuthError::InvalidText);
    }
    Ok(SlackCommandRequest { command: payload.command.clone(), text: payload.text.clone() })
}

/// What a slash command leads to. Only `CreateNotification` runs the fetch
/// and the notification.
#[derive(Debug, Clone, Copy, PartialEq, Eq, Structural)]
pub enum CommandAction {
    Reject(AuthError),
    Help,
    HealthCheck,
    CreateNotification,
}

/// The action for a payload, by the outcome of its authorization and then by
/// its text.
pub open spec fn action_for(
    token: Seq<char>,
    command: Seq<char>,
    text: Seq<char>,
    expected_token: Seq<char>,
) -> CommandAction {
    match authorize(token, command, text, expected_token) {
        Err(e) => CommandAction::Reject(e),
        Ok(()) => if text == HELP_TEXT@ {
            CommandAction::Help
        } else if text == HEALTH_CHECK_TEXT@ {
            CommandAction::HealthCheck
        } else {
            CommandAction::CreateNotification
        },
    }
}

/// Authorizes a payload and picks the action it asks for.
pub fn command_action(payload: &SlashCommandPayload, expected_token: &str) -> (r: CommandAction)
    ensures
        r == action_for(payload.token@, payload.command@, payload.text@, expected_token@),
{
    match validate_slash_command_payload(payload, expected_token) {
        Err(e) => CommandAction::Reject(e),
        Ok(req) => {
            if req.text == String::from_str(HELP_TEXT) {
                CommandAction::Help
            } else if req.text == String::from_str(HEALTH_CHECK_TEXT) {
                CommandAction::HealthCheck
            } else {
                CommandAction::CreateNotification
            }
        },
    }
}

impl CommandAction {
    pub open spec fn reply_spec(&self) -> (u16, Seq<char>) {
        match self {
            CommandAction::Reject(e) => (STATUS_BAD_REQUEST, e.message_spec()),
            CommandAction::Help => (STATUS_OK, HELP_REPLY@),
            CommandAction::HealthCheck => (STATUS_OK, HEALTH_CHECK_REPLY@),
            CommandAction::CreateNotification => (STATUS_OK, DONE_REPLY@),
        }
    }

    /// The status code and text answered to the caller; for a notification,
    /// the answer once it has been sent.
    pub fn reply(&self) -> (r: (u16, String))
        ensures
            (r.0, r.1@) == self.reply_spec(),
    {
        match self {
            CommandAction::Reject(e) => (STATUS_BAD_REQUEST, e.message()),
            CommandAction::Help => (STATUS_OK, String::from_str(HELP_REPLY)),
            CommandAction::HealthCheck => (STATUS_OK, String::from_str(HEALTH_CHECK_REPLY)),
            CommandAction::CreateNotification => (STATUS_OK, String::from_str(DONE_REPLY)),
        }
    }
}

/// With the right token, `/mygithub health-check` is authorized and answered
/// at once: it is not the action that fetches issues.
pub proof fn lemma_health_check_skips_fetch(token: Seq<char>, expected_token: Seq<char>)
    requires
        token == expected_token,
    ensures
        authorize(token, COMMAND_NAME@, HEALTH_CHECK_TEXT@, expected_token) is Ok,
        action_for(token, COMMAND_NAME@, HEALTH_CHECK_TEXT@, expected_token)
            == CommandAction::HealthCheck,
        action_for(token, COMMAND_NAME@, HEALTH_CHECK_TEXT@, expected_token)
            != CommandAction::CreateNotification,
{
    reveal_strlit("help");
    reveal_strlit("health-check");
    assert(HELP_TEXT@.len() != HEALTH_CHECK_TEXT@.len());
}

/// Each failed check has its own rejection: a wrong token gives
/// `InvalidToken`, then a command that is not served gives `InvalidCommand`,
/// then a text that is not served gives `InvalidText`; the three texts differ.
pub proof fn lemma_rejections_are_distinct(
    token: Seq<char>,
    command: Seq<char>,
    text: Seq<char>,
    expected_token: Seq<char>,
)
    ensures
        token != expected_token ==> authorize(token, command, text, expected_token) == Err::<
            (),
            AuthError,
        >(AuthError::InvalidToken),
        token == expected_token && !is_available_command(command) ==> authorize(
            token,
            command,
            text,
            expected_token,
        ) == Err::<(), AuthError>(AuthError::InvalidCommand),
        token == expected_token && is_available_command(command) && !is_available_text(text)
            ==> authorize(token, command, text, expected_token) == Err::<(), AuthError>(
            AuthError::InvalidText,
        ),
        AuthError::InvalidToken.message_spec() != AuthError::InvalidCommand.message_spec(),
        AuthError::InvalidToken.message_spec() != AuthError::InvalidText.message_spec(),
        AuthError::InvalidCommand.message_spec() != AuthError::InvalidText.message_spec(),
{
    reveal_strlit("Invalid token");
    reveal_strlit("Invalid command");
    reveal_strlit("Invalid text");
    assert(INVALID_TOKEN_MESSAGE@[8] != INVALID_COMMAND_MESSAGE@[8]);
    assert(INVALID_TOKEN_MESSAGE@.len() != INVALID_TEXT_MESSAGE@.len());
    assert(INVALID_COMMAND_MESSAGE@.len() != INVALID_TEXT_MESSAGE@.len());
}

} // verus!
