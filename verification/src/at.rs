use vstd::prelude::*;
use vstd::string::StringExecFns;
use crate::text::{has_prefix, str_eq, to_uppercase, trim, trimmed, uppercase_of};

verus! {

/// The modem's answer to a command that is already trimmed and in upper
/// case. The five known commands have their own answers; any other command
/// that starts with `AT+` is accepted; everything else is an error.
pub open spec fn at_reply(cmd: Seq<char>) -> Seq<char> {
    if cmd == "AT"@ {
        "OK"@
    } else if cmd == "AT+GMR"@ {
        "AT version:2.4.0.0\r\nSDK version:v5.2.2\r\ncompile time:Jan 2026\r\n\r\nOK"@
    } else if cmd == "AT+RST"@ {
        "OK\r\n\r\nready"@
    } else if cmd == "AT+CWMODE?"@ {
        "+CWMODE:1\r\n\r\nOK"@
    } else if cmd == "AT+CWLAP"@ {
        "+CWLAP:(3,\"TestNetwork\",-45,\"aa:bb:cc:dd:ee:ff\",1)\r\n+CWLAP:(4,\"OtherWiFi\",-60,\"11:22:33:44:55:66\",6)\r\n\r\nOK"@
    } else if "AT+"@.is_prefix_of(cmd) {
        "OK"@
    } else {
        "ERROR"@
    }
}

/// Answers a command that is already trimmed and in upper case.
pub fn at_response(cmd: &str) -> (reply: String)
    ensures
        reply@ == at_reply(cmd@),
{
    if str_eq(cmd, "AT") {
        String::from_str("OK")
    } else if str_eq(cmd, "AT+GMR") {
        String::from_str(
            "AT version:2.4.0.0\r\nSDK version:v5.2.2\r\ncompile time:Jan 2026\r\n\r\nOK",
        )
    } else if str_eq(cmd, "AT+RST") {
        String::from_str("OK\r\n\r\nready")
    } else if str_eq(cmd, "AT+CWMODE?") {
        String::from_str("+CWMODE:1\r\n\r\nOK")
    } else if str_eq(cmd, "AT+CWLAP") {
        String::from_str(
            "+CWLAP:(3,\"TestNetwork\",-45,\"aa:bb:cc:dd:ee:ff\",1)\r\n+CWLAP:(4,\"OtherWiFi\",-60,\"11:22:33:44:55:66\",6)\r\n\r\nOK",
        )
    } else if has_prefix(cmd, "AT+") {
        String::from_str("OK")
    } else {
        String::from_str("ERROR")
    }
}

/// Process an AT command and return the response. The line is trimmed and
/// put in upper case first.
pub fn process_at_command(line: &str) -> (reply: String)
    ensures
        reply@ == at_reply(uppercase_of(trimmed(line@))),
{
    let cmd = to_uppercase(trim(line));
    at_response(cmd.as_str())
}

} // verus!
