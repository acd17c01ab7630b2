use vstd::prelude::*;
use vstd::string::*;

verus! {

/// How one conversion ended.
#[derive(Debug)]
pub enum JobOutcome {
    Success,
    /// The codec failed, with its diagnostic text, or could not be started.
    Failure { reason: String },
}

/// One argument of the codec's command line: fixed text, or the place where
/// the job's input or output path goes.
#[derive(Debug)]
pub enum CodecArg {
    Text(String),
    InputPath,
    OutputPath,
}

pub open spec fn digit_char(d: nat) -> char {
    if d == 0 {
        '0'
    } else if d == 1 {
        '1'
    } else if d == 2 {
        '2'
    } else if d == 3 {
        '3'
    } else if d == 4 {
        '4'
    } else if d == 5 {
        '5'
    } else if d == 6 {
        '6'
    } else if d == 7 {
        '7'
    } else if d == 8 {
        '8'
    } else {
        '9'
    }
}

/// `n` written in decimal, without leading zeros.
pub open spec fn decimal_text(n: nat) -> Seq<char>
    decreases n,
{
    if n < 10 {
        seq![digit_char(n)]
    } else {
        decimal_text(n / 10).push(digit_char(n % 10))
    }
}

fn digit_text(d: u8) -> (r: String)
    requires
        d < 10,
    ensures
        r@ == seq![digit_char(d as nat)],
{
    proof {
        reveal_strlit("0");
        reveal_strlit("1");
        reveal_strlit("2");
        reveal_strlit("3");
        reveal_strlit("4");
        reveal_strlit("5");
        reveal_strlit("6");
        reveal_strlit("7");
        reveal_strlit("8");
        reveal_strlit("9");
    }
    let t = if d == 0 {
        "0"
    } else if d == 1 {
        "1"
    } else if d == 2 {
        "2"
    } else if d == 3 {
        "3"
    } else if d == 4 {
        "4"
    } else if d == 5 {
        "5"
    } else if d == 6 {
        "6"
    } else if d == 7 {
        "7"
    } else if d == 8 {
        "8"
    } else {
        "9"
    };
    assert(t@ =~= seq![digit_char(d as nat)]);
    String::from_str(t)
}

/// The conversion settings shared by every job of a run.
pub struct Converter {
    pub quality: u8,
}

impl Converter {
    /// A converter that encodes at `quality`, from 0 to 100.
    pub fn new(quality: u8) -> (r: Converter)
        ensures
            r.quality == quality,
    {
        Converter { quality }
    }

    /// The quality written in decimal, as the codec reads it.
    pub fn quality_text(&self) -> (r: String)
        ensures
            r@ == decimal_text(self.quality as nat),
    {
        let q = self.quality;
        if q < 10 {
            digit_text(q)
        } else if q < 100 {
            proof {
                reveal_with_fuel(decimal_text, 2);
            }
            let tens = digit_text(q / 10);
            let ones = digit_text(q % 10);
            let r = tens.concat(ones.as_str());
            assert(r@ =~= decimal_text(q as nat));
            r
        } else {
            proof {
                reveal_with_fuel(decimal_text, 3);
                assert((q as nat) / 10 / 10 == (q as nat) / 100);
            }
            let hundreds = digit_text(q / 100);
            let tens = digit_text((q / 10) % 10);
            let ones = digit_text(q % 10);
            let r = hundreds.concat(tens.as_str()).concat(ones.as_str());
            assert(r@ =~= decimal_text(q as nat));
            r
        }
    }

    /// The codec's arguments for one job: read the input, encode at this
    /// quality, overwrite any existing output, write the output.
    pub fn codec_args(&self) -> (r: Vec<CodecArg>)
        ensures
            r@.len() == 6,
            r@[0] matches CodecArg::Text(t) && t@ == "-i"@,
            r@[1] is InputPath,
            r@[2] matches CodecArg::Text(t) && t@ == "-quality"@,
            r@[3] matches CodecArg::Text(t) && t@ == decimal_text(self.quality as nat),
            r@[4] matches CodecArg::Text(t) && t@ == "-y"@,
            r@[5] is OutputPath,
    {
        let mut r: Vec<CodecArg> = Vec::new();
        r.push(CodecArg::Text(String::from_str("-i")));
        r.push(CodecArg::InputPath);
        r.push(CodecArg::Text(String::from_str("-quality")));
        r.push(CodecArg::Text(self.quality_text()));
        r.push(CodecArg::Text(String::from_str("-y")));
        r.push(CodecArg::OutputPath);
        r
    }

    /// The outcome of one codec run: success exactly when it started and
    /// exited with status zero; otherwise its diagnostic text is kept.
    pub fn outcome_of_run(started: bool, exit_success: bool, diagnostic: String) -> (r: JobOutcome)
        ensures
            started && exit_success ==> r is Success,
            !(started && exit_success) ==> r == (JobOutcome::Failure { reason: diagnostic }),
    {
        if started && exit_success {
            JobOutcome::Success
        } else {
            JobOutcome::Failure { reason: diagnostic }
        }
    }
}

} // verus!
