//! The programs that a front end offers by name.

use vstd::prelude::*;

verus! {

/// A program that ships with the machine.
#[derive(Clone, Copy, Debug, PartialEq, Eq, Structural)]
pub enum Rom {
    Tetris,
    Brix,
    Pong,
    KeyPad,
    Invaders,
    TicTacToe,
    IBMLogo,
    Particles,
    /// The instruction test program, which also stands in for every name
    /// that is not known.
    Test,
}

/// The program that goes by `name`: the test program if none does.
pub open spec fn rom_named(name: Seq<char>) -> Rom {
    if name == "tetris"@ {
        Rom::Tetris
    } else if name == "brix"@ {
        Rom::Brix
    } else if name == "pong"@ {
        Rom::Pong
    } else if name == "keypad"@ {
        Rom::KeyPad
    } else if name == "invaders"@ {
        Rom::Invaders
    } else if name == "tictactoe"@ {
        Rom::TicTacToe
    } else if name == "ibmlogo"@ {
        Rom::IBMLogo
    } else if name == "particles"@ {
        Rom::Particles
    } else {
        Rom::Test
    }
}

/// Whether `name` reads `word`.
fn is_named(name: &String, word: &str) -> (b: bool)
    ensures
        b == (name@ == word@),
{
    *name == word.to_owned()
}

/// Looks a program up by its name.
pub fn get_rom(name: &String) -> (rom: Rom)
    ensures
        rom == rom_named(name@),
{
    if is_named(name, "tetris") {
        Rom::Tetris
    } else if is_named(name, "brix") {
        Rom::Brix
    } else if is_named(name, "pong") {
        Rom::Pong
    } else if is_named(name, "keypad") {
        Rom::KeyPad
    } else if is_named(name, "invaders") {
        Rom::Invaders
    } else if is_named(name, "tictactoe") {
        Rom::TicTacToe
    } else if is_named(name, "ibmlogo") {
        Rom::IBMLogo
    } else if is_named(name, "particles") {
        Rom::Particles
    } else {
        Rom::Test
    }
}

} // verus!
