//! What the command line hands to the pipeline, and what the user chose to run.

use vstd::prelude::*;
use vstd::string::*;
use crate::installer::ToolKind;
use crate::text::{chars_of, is_blank, is_blank_char};

verus! {

/// The arguments of one invocation: the contract to analyse, and where the
/// report is written.
#[derive(Clone, Debug, PartialEq, Eq)]
pub struct Cli {
    /// The path to the Solidity contract file to analyse.
    pub contract_path: String,
    /// The path to write the output report to.
    pub output: String,
}

/// The mathematical content of a [`Cli`].
pub struct CliModel {
    pub contract_path: Seq<char>,
    pub output: Seq<char>,
}

impl View for Cli {
    type V = CliModel;

    open spec fn view(&self) -> CliModel {
        CliModel { contract_path: self.contract_path@, output: self.output@ }
    }
}

/// The output path that is used where the command line names none.
pub open spec fn default_output() -> Seq<char> {
    "report.md"@
}

impl Cli {
    /// The arguments for the contract at `contract_path`, with the default
    /// output path where `output` is `None`.
    pub fn new(contract_path: String, output: Option<String>) -> (cli: Cli)
        ensures
            cli@ == (CliModel {
                contract_path: contract_path@,
                output: match output {
                    Some(path) => path@,
                    None => default_output(),
                },
            }),
    {
        match output {
            Some(path) => Cli { contract_path, output: path },
            None => Cli { contract_path, output: String::from_str("report.md") },
        }
    }
}

/// Which toolsets one run of the pipeline executes.
#[derive(Clone, Copy, Debug, PartialEq, Eq, Structural)]
pub enum RunMode {
    Slither,
    Mythril,
    Both,
}

/// `text` without the white space at its two ends.
pub open spec fn trimmed(text: Seq<char>) -> Seq<char>
    decreases text.len(),
{
    if text.len() == 0 {
        text
    } else if is_blank(text[0]) {
        trimmed(text.drop_first())
    } else if is_blank(text.last()) {
        trimmed(text.drop_last())
    } else {
        text
    }
}

/// The run mode that an answer to the menu selects: `1`, `2` or `3`, with
/// white space around it passed over. Any other answer selects none.
pub open spec fn choice_of(answer: Seq<char>) -> Option<RunMode> {
    let t = trimmed(answer);
    if t == seq!['1'] {
        Some(RunMode::Slither)
    } else if t == seq!['2'] {
        Some(RunMode::Mythril)
    } else if t == seq!['3'] {
        Some(RunMode::Both)
    } else {
        None
    }
}

/// The toolsets that a run mode executes, in the order in which they run.
pub open spec fn toolsets_of(mode: RunMode) -> Seq<ToolKind> {
    match mode {
        RunMode::Slither => seq![ToolKind::Slither],
        RunMode::Mythril => seq![ToolKind::Mythril],
        RunMode::Both => seq![ToolKind::Slither, ToolKind::Mythril],
    }
}

/// The bounds of `v` without the white space at its two ends.
fn trim_bounds(v: &Vec<char>) -> (r: (usize, usize))
    ensures
        r.0 <= r.1 <= v.len(),
        trimmed(v@) == v@.subrange(r.0 as int, r.1 as int),
{
    let mut from: usize = 0;
    let mut to: usize = v.len();
    assert(v@.subrange(0, v.len() as int) =~= v@);
    while from < to && is_blank_char(v[from])
        invariant
            from <= to == v.len(),
            trimmed(v@) == trimmed(v@.subrange(from as int, to as int)),
        decreases to - from,
    {
        assert(v@.subrange(from as int, to as int).drop_first() =~= v@.subrange(
            from + 1,
            to as int,
        ));
        from += 1;
    }
    while from < to && is_blank_char(v[to - 1])
        invariant
            from <= to <= v.len(),
            from < to ==> !is_blank(v@[from as int]),
            trimmed(v@) == trimmed(v@.subrange(from as int, to as int)),
        decreases to - from,
    {
        assert(v@.subrange(from as int, to as int).drop_last() =~= v@.subrange(
            from as int,
            to - 1,
        ));
        to -= 1;
    }
    (from, to)
}

/// Reads the answer to the menu of analyses.
pub fn parse_choice(answer: &str) -> (r: Option<RunMode>)
    ensures
        r == choice_of(answer@),
{
    let v = chars_of(answer);
    let (from, to) = trim_bounds(&v);
    let ghost t = v@.subrange(from as int, to as int);
    if to - from != 1 {
        assert(t.len() != 1);
        assert(seq!['1'].len() == 1 && seq!['2'].len() == 1 && seq!['3'].len() == 1);
        return None;
    }
    let c = v[from];
    assert(t =~= seq![c]);
    assert(t[0] == c);
    assert(seq!['1'][0] == '1' && seq!['2'][0] == '2' && seq!['3'][0] == '3');
    if c == '1' {
        Some(RunMode::Slither)
    } else if c == '2' {
        Some(RunMode::Mythril)
    } else if c == '3' {
        Some(RunMode::Both)
    } else {
        None
    }
}

/// The toolsets that `mode` executes, in the order in which they run.
pub fn toolsets_for(mode: RunMode) -> (kinds: Vec<ToolKind>)
    ensures
        kinds@ == toolsets_of(mode),
{
    let mut kinds: Vec<ToolKind> = Vec::new();
    match mode {
        RunMode::Slither => kinds.push(ToolKind::Slither),
        RunMode::Mythril => kinds.push(ToolKind::Mythril),
        RunMode::Both => {
            kinds.push(ToolKind::Slither);
            kinds.push(ToolKind::Mythril);
        },
    }
    kinds
}

/// Whether an answer to the question "install now?" means yes: the letter
/// `y` in either case, with white space around it passed over.
pub open spec fn confirms(answer: Seq<char>) -> bool {
    let t = trimmed(answer);
    t == seq!['y'] || t == seq!['Y']
}

/// Reads the answer to the question whether to install the environments.
pub fn confirms_install(answer: &str) -> (r: bool)
    ensures
        r == confirms(answer@),
{
    let v = chars_of(answer);
    let (from, to) = trim_bounds(&v);
    let ghost t = v@.subrange(from as int, to as int);
    if to - from != 1 {
        assert(t.len() != 1);
        assert(seq!['y'].len() == 1 && seq!['Y'].len() == 1);
        return false;
    }
    let c = v[from];
    assert(t =~= seq![c]);
    assert(t[0] == c);
    assert(seq!['y'][0] == 'y' && seq!['Y'][0] == 'Y');
    c == 'y' || c == 'Y'
}

} // verus!
