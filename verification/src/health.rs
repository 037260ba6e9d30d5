//! The port health check: what is reported for one probed port, and the
//! report on both ports of the relay.

use crate::endpoint::{RECEIVE_PORT, SEND_PORT};
use crate::object::{insert_text, new_object, object_of, object_value};
use crate::text::{decimal, push_decimal, text_result};
use vstd::prelude::*;
use vstd::string::StringExecFns;

verus! {

/// The seconds that a probe waits for its connection.
pub const CHECK_TIMEOUT_SECS: u64 = 3;

/// What a probe found of a port.
#[derive(Clone, Debug, PartialEq, Eq)]
pub enum PortStatus {
    /// The connection was made within the timeout.
    Reachable,
    /// No connection was made; the text is the transport's description.
    Unreachable(String),
    /// The address could not be read as a socket address; the text says why.
    BadAddress(String),
}

/// What is reported for a probed port: a confirmation that names the port
/// where the connection was made, else a diagnostic with the cause.
pub open spec fn check_reply(port: u16, status: PortStatus) -> Result<Seq<char>, Seq<char>> {
    match status {
        PortStatus::Reachable => Ok("端口 "@ + decimal(port as nat) + " 连接正常"@),
        PortStatus::Unreachable(cause) => Err(
            "端口 "@ + decimal(port as nat) + " 连接失败: "@ + cause@,
        ),
        PortStatus::BadAddress(cause) => Err("地址解析失败: "@ + cause@),
    }
}

/// The text of a result, whichever side it is on.
pub open spec fn either_text(r: Result<Seq<char>, Seq<char>>) -> Seq<char> {
    match r {
        Ok(text) => text,
        Err(text) => text,
    }
}

/// The members of the report on both ports: the text for the send port under
/// `send_port`, the text for the receive port under `receive_port`.
pub open spec fn report_members(send: Seq<char>, receive: Seq<char>) -> Map<
    Seq<char>,
    Option<Seq<char>>,
> {
    Map::<Seq<char>, Option<Seq<char>>>::empty().insert("send_port"@, Some(send)).insert(
        "receive_port"@,
        Some(receive),
    )
}

/// What is reported for a probed port.
pub fn check_port(port: u16, status: PortStatus) -> (reply: Result<String, String>)
    ensures
        text_result(reply) == check_reply(port, status),
{
    match status {
        PortStatus::Reachable => {
            let mut text = "端口 ".to_owned();
            push_decimal(&mut text, port);
            text.append(" 连接正常");
            Ok(text)
        },
        PortStatus::Unreachable(cause) => {
            let mut text = "端口 ".to_owned();
            push_decimal(&mut text, port);
            text.append(" 连接失败: ");
            text.append(cause.as_str());
            Err(text)
        },
        PortStatus::BadAddress(cause) => {
            let mut text = "地址解析失败: ".to_owned();
            text.append(cause.as_str());
            Err(text)
        },
    }
}

/// The report on both ports, from what was reported for each: a JSON object
/// with the two members `send_port` and `receive_port`, each the text of its
/// result, be it a confirmation or a diagnostic.
pub fn connections_report(send: Result<String, String>, receive: Result<String, String>) -> (report:
    serde_json::Value)
    ensures
        object_of(report) == Some(
            report_members(either_text(text_result(send)), either_text(text_result(receive))),
        ),
{
    let send_text = match send {
        Ok(text) => text,
        Err(text) => text,
    };
    let receive_text = match receive {
        Ok(text) => text,
        Err(text) => text,
    };
    let mut object = new_object();
    insert_text(&mut object, "send_port".to_owned(), send_text);
    insert_text(&mut object, "receive_port".to_owned(), receive_text);
    object_value(object)
}

/// The report on both ports of the relay, from what the probes found of the
/// send port and of the receive port.
pub fn check_tts_connections(send: PortStatus, receive: PortStatus) -> (report: serde_json::Value)
    ensures
        object_of(report) == Some(
            report_members(
                either_text(check_reply(SEND_PORT, send)),
                either_text(check_reply(RECEIVE_PORT, receive)),
            ),
        ),
{
    connections_report(check_port(SEND_PORT, send), check_port(RECEIVE_PORT, receive))
}

/// What the caller of the check is told where the worker that ran it was
/// lost: the cause, marked as a failure of the worker.
pub fn worker_failure(cause: &str) -> (text: String)
    ensures
        text@ == "线程错误: "@ + cause@,
{
    let mut text = "线程错误: ".to_owned();
    text.append(cause);
    text
}

/// The report always holds both ports, and nothing else, whatever the probes
/// found.
pub proof fn lemma_report_names_both_ports(send: Seq<char>, receive: Seq<char>)
    ensures
        report_members(send, receive).dom() =~= set!["send_port"@, "receive_port"@],
        report_members(send, receive)["send_port"@] == Some(send),
        report_members(send, receive)["receive_port"@] == Some(receive),
{
    reveal_strlit("send_port");
    reveal_strlit("receive_port");
    assert("send_port"@.len() != "receive_port"@.len());
}

/// A port is reported as reachable exactly if the probe connected, and every
/// diagnostic ends with the cause that the probe gave.
pub proof fn lemma_check_reply(port: u16, status: PortStatus)
    ensures
        check_reply(port, status) is Ok <==> status is Reachable,
        match status {
            PortStatus::Reachable => true,
            PortStatus::Unreachable(cause) | PortStatus::BadAddress(cause) => {
                let text = check_reply(port, status)->Err_0;
                text.len() >= cause@.len() && text.skip(text.len() - cause@.len()) == cause@
            },
        },
{
    match status {
        PortStatus::Reachable => {},
        PortStatus::Unreachable(cause) | PortStatus::BadAddress(cause) => {
            let text = check_reply(port, status)->Err_0;
            assert(text.skip(text.len() - cause@.len()) =~= cause@);
        },
    }
}

} // verus!
