//! The command-line surface of the tool as plain data: the two subcommands
//! and their arguments. Argument parsing itself is an external concern; the
//! library only fixes the shape of a parsed invocation and the direction
//! each subcommand selects.

use vstd::prelude::*;

use crate::cipher::Direction;

verus! {

/// A parsed invocation of the tool.
pub struct Cli {
    pub command: Commands,
}

/// The two operations the tool offers.
pub enum Commands {
    /// Encrypt a file.
    Encrypt(EncryptArgs),
    /// Decrypt a file.
    Decrypt(DecryptArgs),
}

/// Arguments of the encrypt operation. Without a key path, a fresh key is
/// generated and persisted next to the input.
pub struct EncryptArgs {
    pub input: String,
    pub output: String,
    pub key_path: Option<String>,
}

/// Arguments of the decrypt operation. Decryption always needs a key path.
pub struct DecryptArgs {
    pub input: String,
    pub output: String,
    pub key_path: String,
}

impl Commands {
    /// The transform direction a subcommand selects, fixed once per session.
    pub fn direction(&self) -> (d: Direction)
        ensures
            self is Encrypt <==> d is Encrypt,
            self is Decrypt <==> d is Decrypt,
    {
        match self {
            Commands::Encrypt(_) => Direction::Encrypt,
            Commands::Decrypt(_) => Direction::Decrypt,
        }
    }
}

} // verus!
