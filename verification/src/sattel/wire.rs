//! The crawler's wire protocol: one JSON object per line, told apart by its
//! member `kind`.

use vstd::prelude::*;
use crate::sattel::json::{
    json_members, json_object_of, members_view, number_member, number_of, object_member, object_of,
    object_view, text_member, text_of, JsonMember, JsonMemberView,
};
use crate::sattel::text::same_text;
use crate::sattel::{
    Error, ErrorView, Message, MessageView, ProgressBarEvent, ProgressBarEventView, ProgressBarKind,
    ProgressBarMessagePayload, ProgressBarMessagePayloadView, RequestSubject,
};

verus! {

/// The kind of progress bar that a word names.
pub open spec fn bar_kind_of(word: Seq<char>) -> Option<ProgressBarKind> {
    if word == "download"@ {
        Some(ProgressBarKind::Download)
    } else if word == "crawl"@ {
        Some(ProgressBarKind::Crawl)
    } else {
        None
    }
}

/// The request subject that a word names.
pub open spec fn subject_of(word: Seq<char>) -> Option<RequestSubject> {
    if word == "password"@ {
        Some(RequestSubject::Password)
    } else if word == "username"@ {
        Some(RequestSubject::Username)
    } else if word == "configFilePath"@ {
        Some(RequestSubject::ConfigFilePath)
    } else if word == "jsonArgs"@ {
        Some(RequestSubject::JsonArgs)
    } else {
        None
    }
}

/// The progress bar update that an object holds, where it holds one.
pub open spec fn event_of(members: Seq<JsonMemberView>) -> Option<ProgressBarEventView> {
    match text_member(members, "kind"@) {
        None => None,
        Some(kind) => if kind == "begin"@ {
            match text_member(members, "bar"@) {
                None => None,
                Some(word) => match (bar_kind_of(word), text_member(members, "path"@)) {
                    (Some(bar), Some(path)) => Some(ProgressBarEventView::Begin { bar, path }),
                    _ => None,
                },
            }
        } else if kind == "advance"@ {
            match number_member(members, "progress"@) {
                Some(progress) => Some(ProgressBarEventView::Advance { progress }),
                None => None,
            }
        } else if kind == "setTotal"@ {
            match number_member(members, "total"@) {
                Some(total) => Some(ProgressBarEventView::SetTotal { total }),
                None => None,
            }
        } else if kind == "done"@ {
            Some(ProgressBarEventView::Done)
        } else {
            None
        },
    }
}

/// The message that an object holds, where it holds one. `event` is the
/// nested object of its member `event`, where it has one.
pub open spec fn message_of(members: Seq<JsonMemberView>, event: Option<Seq<JsonMemberView>>) -> Option<
    MessageView,
> {
    match text_member(members, "kind"@) {
        None => None,
        Some(kind) => if kind == "error"@ {
            match (text_member(members, "exception"@), text_member(members, "message"@)) {
                (Some(exception), Some(message)) => Some(
                    MessageView::Error(ErrorView { exception, message }),
                ),
                _ => None,
            }
        } else if kind == "loginFailed"@ {
            Some(MessageView::LoginFailed)
        } else if kind == "crawl"@ {
            match text_member(members, "name"@) {
                Some(name) => Some(MessageView::Crawl { name }),
                None => None,
            }
        } else if kind == "progressBar"@ {
            match (number_member(members, "id"@), event) {
                (Some(id), Some(nested)) => match event_of(nested) {
                    Some(update) => Some(
                        MessageView::ProgressBar(ProgressBarMessagePayloadView { id, event: update }),
                    ),
                    None => None,
                },
                _ => None,
            }
        } else if kind == "request"@ {
            match text_member(members, "subject"@) {
                None => None,
                Some(word) => match subject_of(word) {
                    Some(subject) => Some(MessageView::Request { subject }),
                    None => None,
                },
            }
        } else if kind == "log"@ {
            match text_member(members, "info"@) {
                Some(info) => Some(MessageView::Log { info }),
                None => None,
            }
        } else if kind == "done"@ {
            Some(MessageView::Done)
        } else {
            None
        },
    }
}

/// The nested object of the member `event`, where the object has one.
pub open spec fn event_object_of(members: Seq<JsonMemberView>) -> Option<Seq<JsonMemberView>> {
    match object_member(members, "event"@) {
        Some(text) => json_object_of(text),
        None => None,
    }
}

/// The message that a line holds: nothing where the line is not a JSON
/// object or the object is no message of the protocol.
pub open spec fn line_message(line: Seq<char>) -> Option<MessageView> {
    match json_object_of(line) {
        None => None,
        Some(members) => message_of(members, event_object_of(members)),
    }
}

/// The mathematical value of a progress bar update that may be missing.
pub open spec fn event_option_view(event: Option<ProgressBarEvent>) -> Option<ProgressBarEventView> {
    match event {
        Some(update) => Some(update@),
        None => None,
    }
}

/// The mathematical value of a message that may be missing.
pub open spec fn message_option_view(message: Option<Message>) -> Option<MessageView> {
    match message {
        Some(m) => Some(m@),
        None => None,
    }
}

/// The kind of progress bar that a word names.
pub fn decode_bar_kind(word: &str) -> (kind: Option<ProgressBarKind>)
    ensures
        kind == bar_kind_of(word@),
{
    if same_text(word, "download") {
        Some(ProgressBarKind::Download)
    } else if same_text(word, "crawl") {
        Some(ProgressBarKind::Crawl)
    } else {
        None
    }
}

/// The request subject that a word names.
pub fn decode_subject(word: &str) -> (subject: Option<RequestSubject>)
    ensures
        subject == subject_of(word@),
{
    if same_text(word, "password") {
        Some(RequestSubject::Password)
    } else if same_text(word, "username") {
        Some(RequestSubject::Username)
    } else if same_text(word, "configFilePath") {
        Some(RequestSubject::ConfigFilePath)
    } else if same_text(word, "jsonArgs") {
        Some(RequestSubject::JsonArgs)
    } else {
        None
    }
}

/// Reads a progress bar update from the members of its object.
pub fn decode_event(members: &Vec<JsonMember>) -> (event: Option<ProgressBarEvent>)
    ensures
        event_option_view(event) == event_of(members_view(members@)),
{
    let kind = match text_of(members, "kind") {
        Some(kind) => kind,
        None => {
            return None;
        },
    };
    if same_text(kind.as_str(), "begin") {
        let word = match text_of(members, "bar") {
            Some(word) => word,
            None => {
                return None;
            },
        };
        match (decode_bar_kind(word.as_str()), text_of(members, "path")) {
            (Some(bar), Some(path)) => Some(ProgressBarEvent::Begin { bar, path }),
            _ => None,
        }
    } else if same_text(kind.as_str(), "advance") {
        match number_of(members, "progress") {
            Some(progress) => Some(ProgressBarEvent::Advance { progress }),
            None => None,
        }
    } else if same_text(kind.as_str(), "setTotal") {
        match number_of(members, "total") {
            Some(total) => Some(ProgressBarEvent::SetTotal { total }),
            None => None,
        }
    } else if same_text(kind.as_str(), "done") {
        Some(ProgressBarEvent::Done)
    } else {
        None
    }
}

/// Reads a message from the members of its object and, for a progress bar,
/// the members of the nested object `event`.
pub fn decode_message(members: &Vec<JsonMember>, event: &Option<Vec<JsonMember>>) -> (message: Option<
    Message,
>)
    ensures
        message_option_view(message) == message_of(members_view(members@), object_view(*event)),
{
    let kind = match text_of(members, "kind") {
        Some(kind) => kind,
        None => {
            return None;
        },
    };
    if same_text(kind.as_str(), "error") {
        match (text_of(members, "exception"), text_of(members, "message")) {
            (Some(exception), Some(message)) => Some(Message::Error(Error { exception, message })),
            _ => None,
        }
    } else if same_text(kind.as_str(), "loginFailed") {
        Some(Message::LoginFailed)
    } else if same_text(kind.as_str(), "crawl") {
        match text_of(members, "name") {
            Some(name) => Some(Message::Crawl { name }),
            None => None,
        }
    } else if same_text(kind.as_str(), "progressBar") {
        match (number_of(members, "id"), event) {
            (Some(id), Some(nested)) => match decode_event(nested) {
                Some(update) => Some(Message::ProgressBar(ProgressBarMessagePayload { id, event: update })),
                None => None,
            },
            _ => None,
        }
    } else if same_text(kind.as_str(), "request") {
        let word = match text_of(members, "subject") {
            Some(word) => word,
            None => {
                return None;
            },
        };
        match decode_subject(word.as_str()) {
            Some(subject) => Some(Message::Request { subject }),
            None => None,
        }
    } else if same_text(kind.as_str(), "log") {
        match text_of(members, "info") {
            Some(info) => Some(Message::Log { info }),
            None => None,
        }
    } else if same_text(kind.as_str(), "done") {
        Some(Message::Done)
    } else {
        None
    }
}

/// Reads the message that a line of the crawler's output holds.
pub fn read_line(line: &str) -> (message: Option<Message>)
    ensures
        message_option_view(message) == line_message(line@),
{
    let members = match json_members(line) {
        Some(members) => members,
        None => {
            return None;
        },
    };
    let event = match object_of(&members, "event") {
        Some(text) => json_members(text.as_str()),
        None => None,
    };
    decode_message(&members, &event)
}

} // verus!
