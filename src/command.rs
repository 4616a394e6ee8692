use vstd::prelude::*;
use vstd::string::*;

verus! {

/// The decimal digit `d` as a character.
pub open spec fn digit_char(d: nat) -> char {
    if d == 0 {
        '0'
    } else if d == 1 {
        '1'
    } else if d == 2 {
        '2'
    } else if d == 3 {
        '3'
    } else if d == 4 {
        '4'
    } else if d == 5 {
        '5'
    } else if d == 6 {
        '6'
    } else if d == 7 {
        '7'
    } else if d == 8 {
        '8'
    } else {
        '9'
    }
}

/// The decimal digits of `n`, most significant first, without leading zeros.
pub open spec fn digits(n: nat) -> Seq<char>
    decreases n,
{
    if n < 10 {
        seq![digit_char(n)]
    } else {
        digits(n / 10) + seq![digit_char(n % 10)]
    }
}

/// `n` written in decimal, with a leading `-` when negative.
pub open spec fn decimal(n: int) -> Seq<char> {
    if n < 0 {
        seq!['-'] + digits((-n) as nat)
    } else {
        digits(n as nat)
    }
}

fn digit_str(d: u64) -> (r: &'static str)
    requires
        d < 10,
    ensures
        r@ == seq![digit_char(d as nat)],
{
    proof {
        reveal_strlit("0");
        reveal_strlit("1");
        reveal_strlit("2");
        reveal_strlit("3");
        reveal_strlit("4");
        reveal_strlit("5");
        reveal_strlit("6");
        reveal_strlit("7");
        reveal_strlit("8");
        reveal_strlit("9");
    }
    let r = if d == 0 {
        "0"
    } else if d == 1 {
        "1"
    } else if d == 2 {
        "2"
    } else if d == 3 {
        "3"
    } else if d == 4 {
        "4"
    } else if d == 5 {
        "5"
    } else if d == 6 {
        "6"
    } else if d == 7 {
        "7"
    } else if d == 8 {
        "8"
    } else {
        "9"
    };
    assert(r@ =~= seq![digit_char(d as nat)]);
    r
}

fn digits_text(n: u64) -> (r: String)
    ensures
        r@ == digits(n as nat),
    decreases n,
{
    if n < 10 {
        String::from_str(digit_str(n))
    } else {
        let mut s = digits_text(n / 10);
        s.append(digit_str(n % 10));
        s
    }
}

/// Writes `n` in decimal.
pub fn decimal_text(n: i64) -> (r: String)
    ensures
        r@ == decimal(n as int),
{
    if n < 0 {
        let magnitude: u64 = ((-(n + 1)) as u64) + 1;
        let mut s = String::from_str("-");
        let d = digits_text(magnitude);
        s.append(d.as_str());
        proof {
            reveal_strlit("-");
        }
        assert(s@ =~= decimal(n as int));
        s
    } else {
        digits_text(n as u64)
    }
}


/// A layout command sent to the compositor.
#[derive(PartialEq, Eq, Structural, Clone, Copy, Debug)]
pub enum Command {
    /// Sets the horizontal gap of the current workspace to the width that
    /// leaves room for the main column alone.
    GapsHorizontal,
    /// Clears the right gap of the current workspace.
    GapsRightZero,
    /// Marks the container with the given id as the main column.
    MarkMain(i64),
    /// Resizes the main column of the workspace with the given id.
    ResizeMain(i64),
}

/// The command text of a [`Command`].
pub open spec fn command_text(c: Command) -> Seq<char> {
    match c {
        Command::GapsHorizontal => "gaps horizontal current set 752"@,
        Command::GapsRightZero => "gaps right current set 0"@,
        Command::MarkMain(id) => "mark --add main_"@ + decimal(id as int),
        Command::ResizeMain(id) => "[con_mark=\"main_"@ + decimal(id as int)
            + "\"] resize set 1920px"@,
    }
}

impl Command {
    /// The text that the compositor receives for this command.
    pub fn to_text(&self) -> (r: String)
        ensures
            r@ == command_text(*self),
    {
        match self {
            Command::GapsHorizontal => String::from_str("gaps horizontal current set 752"),
            Command::GapsRightZero => String::from_str("gaps right current set 0"),
            Command::MarkMain(id) => {
                let mut s = String::from_str("mark --add main_");
                let d = decimal_text(*id);
                s.append(d.as_str());
                s
            },
            Command::ResizeMain(id) => {
                let mut s = String::from_str("[con_mark=\"main_");
                let d = decimal_text(*id);
                s.append(d.as_str());
                s.append("\"] resize set 1920px");
                s
            },
        }
    }
}

} // verus!
