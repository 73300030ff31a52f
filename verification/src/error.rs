use vstd::prelude::*;
use vstd::string::StringExecFns;

verus! {

/// Everything that can go wrong while talking to the game.
///
/// A memflow read either fails outright (`Memflow`) or completes only in part; a partial
/// read is reported with the variant that belongs to the type that was being read, carrying
/// what could be read (unreadable bytes read as zero).
pub enum RadarError {
    /// The game's build number differs from the one the offsets were dumped for.
    /// The first field is the game's build, the second the offsets' build.
    GameVersionMismatch(usize, usize),
    Memflow(memflow::error::Error),
    MemflowPartialAddress(u64),
    /// A partial read of a three-component vector; each component is an `f32` bit pattern.
    MemflowPartialVec3(u32, u32, u32),
    MemflowPartialString(String),
    MemflowPartiali32(i32),
    MemflowPartialu32(u32),
    /// A partial read of an `f32`, carried as its bit pattern.
    MemflowPartialf32(u32),
    MemflowPartialu8(u8),
    MemflowPartiali16(i16),
    MemflowPartialVecu8(Vec<u8>),
}


/// The decimal digit `d` (0 to 9).
pub open spec fn digit_char(d: nat) -> char {
    if d == 0 { '0' } else if d == 1 { '1' } else if d == 2 { '2' } else if d == 3 { '3' } else if d == 4 { '4' } else if d == 5 { '5' } else if d == 6 { '6' } else if d == 7 { '7' } else if d == 8 { '8' } else { '9' }
}

/// The decimal text of `n`, without leading zeros.
pub open spec fn decimal(n: nat) -> Seq<char>
    decreases n,
{
    if n < 10 {
        seq![digit_char(n)]
    } else {
        decimal(n / 10).push(digit_char(n % 10))
    }
}

/// The text of one decimal digit.
fn digit_str(d: usize) -> (r: &'static str)
    requires
        d < 10,
    ensures
        r@ == seq![digit_char(d as nat)],
{
    match d {
        0 => {
            proof { reveal_strlit("0"); }
            "0"
        },
        1 => {
            proof { reveal_strlit("1"); }
            "1"
        },
        2 => {
            proof { reveal_strlit("2"); }
            "2"
        },
        3 => {
            proof { reveal_strlit("3"); }
            "3"
        },
        4 => {
            proof { reveal_strlit("4"); }
            "4"
        },
        5 => {
            proof { reveal_strlit("5"); }
            "5"
        },
        6 => {
            proof { reveal_strlit("6"); }
            "6"
        },
        7 => {
            proof { reveal_strlit("7"); }
            "7"
        },
        8 => {
            proof { reveal_strlit("8"); }
            "8"
        },
        _ => {
            proof { reveal_strlit("9"); }
            "9"
        },
    }
}

/// The decimal text of `n` (`n.to_string()`).
pub fn decimal_string(n: usize) -> (r: String)
    ensures
        r@ == decimal(n as nat),
    decreases n,
{
    if n < 10 {
        String::from_str(digit_str(n))
    } else {
        let mut text = decimal_string(n / 10);
        text.append(digit_str(n % 10));
        text
    }
}

/// The message for a game build other than the offsets': `game build is {game}, but offsets
/// are for {dumped}`.
pub open spec fn version_mismatch_text(game: nat, dumped: nat) -> Seq<char> {
    "game build is "@ + decimal(game) + ", but offsets are for "@ + decimal(dumped)
}

impl RadarError {
    /// The message of a version mismatch, `None` for any other error.
    pub fn version_mismatch_message(&self) -> (r: Option<String>)
        ensures
            match self {
                RadarError::GameVersionMismatch(game, dumped) => r is Some && r->Some_0@ == version_mismatch_text(*game as nat, *dumped as nat),
                _ => r is None,
            },
    {
        match self {
            RadarError::GameVersionMismatch(game, dumped) => {
                let mut text = String::from_str("game build is ");
                text.append(decimal_string(*game).as_str());
                text.append(", but offsets are for ");
                text.append(decimal_string(*dumped).as_str());
                Some(text)
            },
            _ => None,
        }
    }
}

} // verus!
