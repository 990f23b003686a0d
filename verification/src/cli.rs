//! The server's settings, as the command line gives them, and the checks
//! that they must pass before the server starts.

use vstd::prelude::*;
use vstd::string::StringExecFns;
use crate::text::same_text;

verus! {

/// The settings of the server.
#[derive(Debug, Clone)]
pub struct Cli {
    /// The address to listen on.
    pub binding_address: String,
    /// The path under which the scanner endpoints stand.
    pub scope: String,
    /// A file with the scanner capabilities to serve, if not the built-in.
    pub scanner_caps_file: Option<String>,
    /// An image file to serve as document, if not the built-in.
    pub served_image: Option<String>,
    /// The port to listen on; never 0 in settings that passed `parse_cli`.
    pub port: u16,
}

/// Why settings were turned down.
#[derive(Debug, Clone, Copy, PartialEq, Eq, Structural)]
pub enum CliError {
    /// The port is 0.
    InvalidPort,
    /// The address to listen on is no IP address.
    InvalidAddress,
}

/// The character of a decimal digit.
pub open spec fn digit_char(digit: nat) -> char {
    ('0' as u8 + digit) as char
}

/// The decimal numeral of a number, without leading zeros.
pub open spec fn decimal(n: nat) -> Seq<char>
    decreases n,
{
    if n < 10 {
        seq![digit_char(n)]
    } else {
        decimal(n / 10) + seq![digit_char(n % 10)]
    }
}

/// The numeral of one decimal digit.
fn digit_text(digit: u16) -> (text: &'static str)
    requires
        digit < 10,
    ensures
        text@ == seq![digit_char(digit as nat)],
{
    proof {
        reveal_strlit("0");
        reveal_strlit("1");
        reveal_strlit("2");
        reveal_strlit("3");
        reveal_strlit("4");
        reveal_strlit("5");
        reveal_strlit("6");
        reveal_strlit("7");
        reveal_strlit("8");
        reveal_strlit("9");
    }
    let text = if digit == 0 {
        "0"
    } else if digit == 1 {
        "1"
    } else if digit == 2 {
        "2"
    } else if digit == 3 {
        "3"
    } else if digit == 4 {
        "4"
    } else if digit == 5 {
        "5"
    } else if digit == 6 {
        "6"
    } else if digit == 7 {
        "7"
    } else if digit == 8 {
        "8"
    } else {
        "9"
    };
    assert(text@ =~= seq![digit_char(digit as nat)]);
    text
}

/// Writes a port number in decimal.
pub fn port_text(port: u16) -> (text: String)
    ensures
        text@ == decimal(port as nat),
    decreases port,
{
    if port < 10 {
        String::from_str(digit_text(port))
    } else {
        let mut text = port_text(port / 10);
        text.append(digit_text(port % 10));
        text
    }
}

impl Cli {
    /// The lines that announce the settings at start-up.
    pub open spec fn spec_summary(self) -> Seq<char> {
        "Binding to "@ + self.binding_address@ + ":"@ + decimal(self.port as nat)
            + "\nScope is: \""@ + self.scope@ + "\"\nPossible URL: http://"@
            + self.binding_address@ + ":"@ + decimal(self.port as nat) + "/"@ + self.scope@
            + "\n"@
    }

    /// The lines that announce the settings at start-up: the address and
    /// port, the scope, and the address put together from them.
    pub fn summary(&self) -> (text: String)
        ensures
            text@ == self.spec_summary(),
    {
        let port = port_text(self.port);
        let mut text = String::from_str("Binding to ");
        text.append(self.binding_address.as_str());
        text.append(":");
        text.append(port.as_str());
        text.append("\nScope is: \"");
        text.append(self.scope.as_str());
        text.append("\"\nPossible URL: http://");
        text.append(self.binding_address.as_str());
        text.append(":");
        text.append(port.as_str());
        text.append("/");
        text.append(self.scope.as_str());
        text.append("\n");
        text
    }
}

/// What `parse_cli` makes of settings: they pass unchanged unless the port
/// is 0 or the address is no IP address; the port is looked at first.
pub open spec fn spec_parse_cli(args: Cli, address_is_ip: bool) -> Result<Cli, CliError> {
    if args.port == 0 {
        Err(CliError::InvalidPort)
    } else if !address_is_ip {
        Err(CliError::InvalidAddress)
    } else {
        Ok(args)
    }
}

/// Checks the settings read from the command line. `address_is_ip` tells
/// whether `binding_address` reads as an IPv4 or IPv6 address.
pub fn parse_cli(args: Cli, address_is_ip: bool) -> (checked: Result<Cli, CliError>)
    ensures
        checked == spec_parse_cli(args, address_is_ip),
{
    if args.port == 0 {
        Err(CliError::InvalidPort)
    } else if !address_is_ip {
        Err(CliError::InvalidAddress)
    } else {
        Ok(args)
    }
}

/// The address to listen on once the machine's own address is known: the
/// machine's address where the loopback address was configured and the
/// machine has another, else the configured one.
pub open spec fn spec_listen_address(configured: Seq<char>, local: Seq<char>) -> Seq<char> {
    if configured == "127.0.0.1"@ && local != "127.0.0.1"@ {
        local
    } else {
        configured
    }
}

/// Chooses the address to listen on, so that a server configured for the
/// loopback address can still be reached by the clients that find it on the
/// network.
pub fn listen_address(configured: &str, local: &str) -> (address: String)
    ensures
        address@ == spec_listen_address(configured@, local@),
{
    if same_text(configured, "127.0.0.1") && !same_text(local, "127.0.0.1") {
        String::from_str(local)
    } else {
        String::from_str(configured)
    }
}

} // verus!
