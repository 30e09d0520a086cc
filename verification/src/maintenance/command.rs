//! The maintenance helper's command line.
use vstd::prelude::*;
use crate::maintenance::error::{Error, ErrorKind};
use crate::text::str_eq;

verus! {

/// A maintenance request.
#[derive(Debug, Clone, Copy, PartialEq, Eq, Structural)]
pub enum Command {
    /// Manual install from the package next to the helper.
    Install { shortcut: bool },
    /// Uninstall this account's installation.
    Uninstall,
}

/// Reads the arguments after the program name: `--uninstall`, `--install`,
/// or `--install --no-start-menu-shortcut`; anything else is refused.
pub fn parse_command(args: &Vec<String>) -> (r: Result<Command, Error>)
    ensures
        args@.len() == 1 && args@[0]@ == "--uninstall"@ ==> r == Ok::<Command, Error>(Command::Uninstall),
        args@.len() == 1 && args@[0]@ == "--install"@ ==> r == Ok::<Command, Error>(Command::Install { shortcut: true }),
        args@.len() == 2 && args@[0]@ == "--install"@ && args@[1]@ == "--no-start-menu-shortcut"@
            ==> r == Ok::<Command, Error>(Command::Install { shortcut: false }),
        !(args@.len() == 1 && (args@[0]@ == "--uninstall"@ || args@[0]@ == "--install"@))
            && !(args@.len() == 2 && args@[0]@ == "--install"@ && args@[1]@ == "--no-start-menu-shortcut"@)
            ==> (r matches Err(e) && e.kind == ErrorKind::InvalidInstallation
                && e.detail@ == "Supported modes: --install [--no-start-menu-shortcut], --uninstall. Updates are not implemented."@),
{
    proof {
        reveal_strlit("--uninstall");
        reveal_strlit("--install");
        assert("--uninstall"@.len() != "--install"@.len());
    }
    if args.len() == 1 && str_eq(args[0].as_str(), "--uninstall") {
        return Ok(Command::Uninstall);
    }
    if args.len() == 1 && str_eq(args[0].as_str(), "--install") {
        return Ok(Command::Install { shortcut: true });
    }
    if args.len() == 2 && str_eq(args[0].as_str(), "--install") && str_eq(args[1].as_str(), "--no-start-menu-shortcut") {
        return Ok(Command::Install { shortcut: false });
    }
    Err(Error::new(
        ErrorKind::InvalidInstallation,
        "Supported modes: --install [--no-start-menu-shortcut], --uninstall. Updates are not implemented.".to_string(),
    ))
}

} // verus!
