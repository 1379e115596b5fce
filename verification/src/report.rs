//! The lines that tell the user what was done, in exact words.

use vstd::prelude::*;
use vstd::string::StringExecFns;

verus! {

/// The character of one decimal digit.
pub open spec fn digit(d: nat) -> char {
    if d == 0 {
        '0'
    } else if d == 1 {
        '1'
    } else if d == 2 {
        '2'
    } else if d == 3 {
        '3'
    } else if d == 4 {
        '4'
    } else if d == 5 {
        '5'
    } else if d == 6 {
        '6'
    } else if d == 7 {
        '7'
    } else if d == 8 {
        '8'
    } else {
        '9'
    }
}

/// A number in decimal digits, without leading zeros.
pub open spec fn decimal(n: nat) -> Seq<char>
    decreases n,
{
    if n < 10 {
        seq![digit(n)]
    } else {
        decimal(n / 10).push(digit(n % 10))
    }
}

/// The number that a decimal digit stands for.
pub open spec fn digit_value(c: char) -> nat {
    if c == '1' {
        1
    } else if c == '2' {
        2
    } else if c == '3' {
        3
    } else if c == '4' {
        4
    } else if c == '5' {
        5
    } else if c == '6' {
        6
    } else if c == '7' {
        7
    } else if c == '8' {
        8
    } else if c == '9' {
        9
    } else {
        0
    }
}

/// The number that a run of decimal digits stands for.
pub open spec fn decimal_value(digits: Seq<char>) -> nat
    decreases digits.len(),
{
    if digits.len() == 0 {
        0
    } else {
        decimal_value(digits.drop_last()) * 10 + digit_value(digits.last())
    }
}

/// The digits of a number stand for that number, and start with a zero only
/// where the number is zero.
pub proof fn law_decimal_reads_back(n: nat)
    ensures
        decimal_value(decimal(n)) == n,
        decimal(n).len() >= 1,
        decimal(n)[0] == '0' <==> n == 0,
    decreases n,
{
    if n < 10 {
        assert(decimal(n).drop_last() =~= Seq::<char>::empty());
        assert(decimal_value(decimal(n).drop_last()) == 0);
    } else {
        law_decimal_reads_back(n / 10);
        assert(decimal(n).drop_last() =~= decimal(n / 10));
        assert(decimal(n).last() == digit(n % 10));
        assert(decimal(n)[0] == decimal(n / 10)[0]);
    }
}

fn digit_str(d: usize) -> (s: &'static str)
    requires
        d < 10,
    ensures
        s@ == seq![digit(d as nat)],
{
    proof {
        reveal_strlit("0");
        reveal_strlit("1");
        reveal_strlit("2");
        reveal_strlit("3");
        reveal_strlit("4");
        reveal_strlit("5");
        reveal_strlit("6");
        reveal_strlit("7");
        reveal_strlit("8");
        reveal_strlit("9");
    }
    let s = if d == 0 {
        "0"
    } else if d == 1 {
        "1"
    } else if d == 2 {
        "2"
    } else if d == 3 {
        "3"
    } else if d == 4 {
        "4"
    } else if d == 5 {
        "5"
    } else if d == 6 {
        "6"
    } else if d == 7 {
        "7"
    } else if d == 8 {
        "8"
    } else {
        "9"
    };
    assert(s@ =~= seq![digit(d as nat)]);
    s
}

/// Writes a number in decimal digits.
pub fn decimal_string(n: usize) -> (s: String)
    ensures
        s@ == decimal(n as nat),
    decreases n,
{
    if n < 10 {
        digit_str(n).to_owned()
    } else {
        let mut s = decimal_string(n / 10);
        s.append(digit_str(n % 10));
        assert(s@ =~= decimal((n / 10) as nat).push(digit((n % 10) as nat)));
        s
    }
}

/// The line that reports a finished compression: how many paths were asked
/// for, and where the archive went.
pub open spec fn compress_report_text(requested: nat, output: Seq<char>) -> Seq<char> {
    "✅ Compressed "@ + decimal(requested) + " files into "@ + output
}

/// The line that reports a finished compression.
pub fn compress_report(requested: usize, output: &str) -> (line: String)
    ensures
        line@ == compress_report_text(requested as nat, output@),
{
    let mut line = "✅ Compressed ".to_owned();
    line.append(decimal_string(requested).as_str());
    line.append(" files into ");
    line.append(output);
    line
}

/// The line that reports a finished extraction.
pub open spec fn decompress_report_text(input: Seq<char>, output_dir: Seq<char>) -> Seq<char> {
    "✅ Extracted contents of "@ + input + " to "@ + output_dir
}

/// The line that reports a finished extraction.
pub fn decompress_report(input: &str, output_dir: &str) -> (line: String)
    ensures
        line@ == decompress_report_text(input@, output_dir@),
{
    let mut line = "✅ Extracted contents of ".to_owned();
    line.append(input);
    line.append(" to ");
    line.append(output_dir);
    line
}

/// The line that reports that a file was put behind an archive.
pub open spec fn add_report_text(file_path: Seq<char>, tar_gz_path: Seq<char>) -> Seq<char> {
    "✅ Added "@ + file_path + " to "@ + tar_gz_path
}

/// The line that reports that a file was put behind an archive.
pub fn add_report(file_path: &str, tar_gz_path: &str) -> (line: String)
    ensures
        line@ == add_report_text(file_path@, tar_gz_path@),
{
    let mut line = "✅ Added ".to_owned();
    line.append(file_path);
    line.append(" to ");
    line.append(tar_gz_path);
    line
}

/// The warning for a path that was skipped because nothing exists there.
pub open spec fn skip_warning_text(path: Seq<char>) -> Seq<char> {
    "⚠️ Skipping missing file: "@ + path
}

/// The warning for one skipped path.
pub fn skip_warning(path: &str) -> (line: String)
    ensures
        line@ == skip_warning_text(path@),
{
    let mut line = "⚠️ Skipping missing file: ".to_owned();
    line.append(path);
    line
}

/// The lines are the warnings for the skipped paths: one each, in order.
pub open spec fn warnings_for(lines: Seq<String>, skipped_paths: Seq<Seq<char>>) -> bool {
    &&& lines.len() == skipped_paths.len()
    &&& forall|i: int|
        0 <= i < lines.len() ==> (#[trigger] lines[i])@ == skip_warning_text(skipped_paths[i])
}

/// One warning for each skipped path, in the same order.
pub fn skip_warnings(skipped: &Vec<String>) -> (lines: Vec<String>)
    ensures
        warnings_for(lines@, skipped@.map_values(|path: String| path@)),
{
    let mut lines: Vec<String> = Vec::new();
    let mut i: usize = 0;
    while i < skipped.len()
        invariant
            0 <= i <= skipped@.len(),
            lines@.len() == i,
            forall|j: int|
                0 <= j < i ==> (#[trigger] lines@[j])@ == skip_warning_text(skipped@[j]@),
        decreases skipped@.len() - i,
    {
        lines.push(skip_warning(skipped[i].as_str()));
        i = i + 1;
    }
    lines
}

/// The line that reports a failure: what was being done, and the cause.
pub open spec fn failure_text(what: Seq<char>, cause: Seq<char>) -> Seq<char> {
    "❌ "@ + what + ": "@ + cause
}

/// The line that reports a failure.
pub fn failure_line(what: &str, cause: &str) -> (line: String)
    ensures
        line@ == failure_text(what@, cause@),
{
    let mut line = "❌ ".to_owned();
    line.append(what);
    line.append(": ");
    line.append(cause);
    line
}

/// The usage text.
pub const USAGE: &'static str = "
NAME
    tart - Compress and decompress files using Gzip and Tar

SYNOPSIS
    tart [OPTIONS] -i <INPUT> -o <OUTPUT>

DESCRIPTION
    Tart is a command-line utility to compress multiple files into a
    single .tar.gz archive, extract .tar.gz archives, or append a file to an
    existing .tar.gz archive.

OPTIONS
    -c, --compress
        Compress multiple files into a single .tar.gz archive.

    -d, --decompress
        Extract files from a .tar.gz archive.

    -a, --add
        Add a file to an existing .tar.gz archive.

    -i, --input <INPUT>
        Input file(s) for compression, or archive file for decompression
        and for adding. Accepts multiple files when compressing.

    -o, --output <OUTPUT>
        Output archive file (.tar.gz), extraction directory, or, when
        adding, the file to add.

    -h, --help
        Display this help message.

EXAMPLES
    Compress files into an archive:
        tart -c -i file1.txt file2.txt -o archive.tar.gz

    Decompress an archive:
        tart -d -i archive.tar.gz -o extracted_dir/

    Add a file to an existing archive:
        tart -a -i archive.tar.gz -o newfile.txt";

/// The usage text, for printing.
pub fn display_help() -> (text: &'static str)
    ensures
        text@ == USAGE@,
{
    USAGE
}

} // verus!
