use vstd::prelude::*;

verus! {

/// Where the worker and its runtime are found.
#[derive(Clone, Debug)]
pub struct PythonInfo {
    pub python_path: String,
    pub cli_path: String,
    pub venv_path: String,
}

pub open spec fn digit_char(d: nat) -> char {
    if d == 0 {
        '0'
    } else if d == 1 {
        '1'
    } else if d == 2 {
        '2'
    } else if d == 3 {
        '3'
    } else if d == 4 {
        '4'
    } else if d == 5 {
        '5'
    } else if d == 6 {
        '6'
    } else if d == 7 {
        '7'
    } else if d == 8 {
        '8'
    } else {
        '9'
    }
}

/// A number written in decimal digits, without sign or leading zeros.
pub open spec fn decimal(n: nat) -> Seq<char>
    decreases n,
{
    if n < 10 {
        seq![digit_char(n)]
    } else {
        decimal(n / 10).push(digit_char(n % 10))
    }
}

/// Relies on `ToString` for `u64` (through `Display`), which writes the
/// number in decimal digits with no sign, padding or separators.
#[verifier::external_body]
fn decimal_text(n: u64) -> (r: String)
    ensures
        r@ == decimal(n as nat),
{
    n.to_string()
}

/// The arguments that every download passes to the worker.
pub open spec fn common_args(
    url: Seq<char>,
    output_dir: Seq<char>,
    timeout: u32,
    retries: u32,
    delay: Seq<char>,
) -> Seq<Seq<char>> {
    seq![
        "-m"@,
        "resource_fetcher_cli"@,
        "--url"@,
        url,
        "--output"@,
        output_dir,
        "--timeout"@,
        decimal(timeout as nat),
        "--retries"@,
        decimal(retries as nat),
        "--delay"@,
        delay,
    ]
}

pub open spec fn flag(on: bool, name: Seq<char>) -> Seq<Seq<char>> {
    if on {
        seq![name]
    } else {
        Seq::empty()
    }
}

pub open spec fn album_args_spec(
    url: Seq<char>,
    output_dir: Seq<char>,
    limit: Option<u64>,
    timeout: u32,
    retries: u32,
    delay: Seq<char>,
    overwrite: bool,
    renumber: bool,
    verbose: bool,
) -> Seq<Seq<char>> {
    common_args(url, output_dir, timeout, retries, delay) + match limit {
        Some(n) => seq!["--limit"@, decimal(n as nat)],
        None => Seq::empty(),
    } + flag(overwrite, "--overwrite"@) + flag(renumber, "--renumber"@) + flag(
        verbose,
        "--verbose"@,
    )
}

pub open spec fn song_args_spec(
    url: Seq<char>,
    output_dir: Seq<char>,
    timeout: u32,
    retries: u32,
    delay: Seq<char>,
    renumber: bool,
    verbose: bool,
) -> Seq<Seq<char>> {
    common_args(url, output_dir, timeout, retries, delay) + flag(renumber, "--renumber"@) + flag(
        verbose,
        "--verbose"@,
    )
}

pub open spec fn strings_view(v: Seq<String>) -> Seq<Seq<char>> {
    v.map_values(|s: String| s@)
}

fn push_common_args(
    args: &mut Vec<String>,
    url: &str,
    output_dir: &str,
    timeout: u32,
    retries: u32,
    delay: &str,
)
    requires
        old(args)@.len() == 0,
    ensures
        strings_view(final(args)@) == common_args(url@, output_dir@, timeout, retries, delay@),
{
    args.push("-m".to_string());
    args.push("resource_fetcher_cli".to_string());
    args.push("--url".to_string());
    args.push(url.to_string());
    args.push("--output".to_string());
    args.push(output_dir.to_string());
    args.push("--timeout".to_string());
    args.push(decimal_text(timeout as u64));
    args.push("--retries".to_string());
    args.push(decimal_text(retries as u64));
    args.push("--delay".to_string());
    args.push(delay.to_string());
    assert(strings_view(args@) =~= common_args(url@, output_dir@, timeout, retries, delay@));
}

fn push_flag(args: &mut Vec<String>, on: bool, name: &str)
    ensures
        strings_view(final(args)@) == strings_view(old(args)@) + flag(on, name@),
{
    let ghost before = args@;
    if on {
        args.push(name.to_string());
    }
    assert(strings_view(args@) =~= strings_view(before) + flag(on, name@));
}

/// The worker's arguments for an album download. `delay` is the delay
/// between items in seconds, as text.
pub fn album_args(
    url: &str,
    output_dir: &str,
    limit: Option<u64>,
    timeout: u32,
    retries: u32,
    delay: &str,
    overwrite: bool,
    renumber: bool,
    verbose: bool,
) -> (r: Vec<String>)
    ensures
        strings_view(r@) == album_args_spec(
            url@,
            output_dir@,
            limit,
            timeout,
            retries,
            delay@,
            overwrite,
            renumber,
            verbose,
        ),
{
    let mut args: Vec<String> = Vec::new();
    push_common_args(&mut args, url, output_dir, timeout, retries, delay);
    let ghost common = strings_view(args@);
    match limit {
        Some(n) => {
            args.push("--limit".to_string());
            args.push(decimal_text(n));
        },
        None => {},
    }
    assert(strings_view(args@) =~= common + match limit {
        Some(n) => seq!["--limit"@, decimal(n as nat)],
        None => Seq::<Seq<char>>::empty(),
    });
    push_flag(&mut args, overwrite, "--overwrite");
    push_flag(&mut args, renumber, "--renumber");
    push_flag(&mut args, verbose, "--verbose");
    args
}

/// The worker's arguments for a single-song download.
pub fn song_args(
    url: &str,
    output_dir: &str,
    timeout: u32,
    retries: u32,
    delay: &str,
    renumber: bool,
    verbose: bool,
) -> (r: Vec<String>)
    ensures
        strings_view(r@) == song_args_spec(
            url@,
            output_dir@,
            timeout,
            retries,
            delay@,
            renumber,
            verbose,
        ),
{
    let mut args: Vec<String> = Vec::new();
    push_common_args(&mut args, url, output_dir, timeout, retries, delay);
    push_flag(&mut args, renumber, "--renumber");
    push_flag(&mut args, verbose, "--verbose");
    args
}

} // verus!
