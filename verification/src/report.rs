use vstd::prelude::*;

verus! {

use crate::outcome::{JobOutcome, SpecOutcome};

/// The decimal digit character for one digit value.
pub open spec fn spec_digit_char(d: int) -> char {
    if d == 0 {
        '0'
    } else if d == 1 {
        '1'
    } else if d == 2 {
        '2'
    } else if d == 3 {
        '3'
    } else if d == 4 {
        '4'
    } else if d == 5 {
        '5'
    } else if d == 6 {
        '6'
    } else if d == 7 {
        '7'
    } else if d == 8 {
        '8'
    } else {
        '9'
    }
}

/// The decimal digits of a number, most significant first, with no sign
/// and no leading zero except for zero itself.
pub open spec fn spec_digits(n: int) -> Seq<char>
    recommends
        n >= 0,
    decreases n,
{
    if n < 10 {
        seq![spec_digit_char(n)]
    } else {
        spec_digits(n / 10).push(spec_digit_char(n % 10))
    }
}

fn digit_str(d: u64) -> (r: &'static str)
    requires
        d < 10,
    ensures
        r@ =~= seq![spec_digit_char(d as int)],
{
    if d == 0 {
        proof {
            reveal_strlit("0");
        }
        "0"
    } else if d == 1 {
        proof {
            reveal_strlit("1");
        }
        "1"
    } else if d == 2 {
        proof {
            reveal_strlit("2");
        }
        "2"
    } else if d == 3 {
        proof {
            reveal_strlit("3");
        }
        "3"
    } else if d == 4 {
        proof {
            reveal_strlit("4");
        }
        "4"
    } else if d == 5 {
        proof {
            reveal_strlit("5");
        }
        "5"
    } else if d == 6 {
        proof {
            reveal_strlit("6");
        }
        "6"
    } else if d == 7 {
        proof {
            reveal_strlit("7");
        }
        "7"
    } else if d == 8 {
        proof {
            reveal_strlit("8");
        }
        "8"
    } else {
        proof {
            reveal_strlit("9");
        }
        "9"
    }
}

/// Renders a number as its decimal digits.
pub fn u64_string(n: u64) -> (s: String)
    ensures
        s@ == spec_digits(n as int),
    decreases n,
{
    if n < 10 {
        String::from_str(digit_str(n))
    } else {
        u64_string(n / 10).concat(digit_str(n % 10))
    }
}

/// The report line of a compressed file.
pub open spec fn spec_success_line(name: Seq<char>, ratio: int) -> Seq<char> {
    name + " has been compressed to "@ + spec_digits(ratio) + "% of its original size."@
}

/// The report line of a failed file.
pub open spec fn spec_failure_line(name: Seq<char>, message: Seq<char>) -> Seq<char> {
    name + " fails to compress due to \""@ + message + "\"."@
}

/// The report line of one outcome.
pub open spec fn spec_report_line(o: SpecOutcome) -> Seq<char> {
    match o {
        SpecOutcome::Compressed { file_name, ratio_percent } => spec_success_line(
            file_name,
            ratio_percent,
        ),
        SpecOutcome::Failed { file_name, error_kind: _, message } => spec_failure_line(
            file_name,
            message,
        ),
    }
}

/// Renders one outcome as its report line: the file name and the ratio on
/// success, the file name and the quoted message on failure.
pub fn report_line(outcome: &JobOutcome) -> (r: String)
    ensures
        r@ == spec_report_line(outcome@),
{
    match outcome {
        JobOutcome::Compressed { file_name, ratio_percent } => {
            let r = file_name.clone().concat(" has been compressed to ").concat(
                u64_string(*ratio_percent).as_str(),
            ).concat("% of its original size.");
            proof {
                assert(r@ =~= spec_report_line(outcome@));
            }
            r
        },
        JobOutcome::Failed { file_name, error_kind: _, message } => {
            let r = file_name.clone().concat(" fails to compress due to \"").concat(
                message.as_str(),
            ).concat("\".");
            proof {
                assert(r@ =~= spec_report_line(outcome@));
            }
            r
        },
    }
}

} // verus!
