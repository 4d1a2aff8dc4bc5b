use crate::text::{decimal_string, int_decimal};
use vstd::prelude::*;
use vstd::string::StringExecFns;

verus! {

/// The characters of each token of an argument vector.
pub open spec fn token_views(v: Seq<String>) -> Seq<Seq<char>> {
    v.map_values(|s: String| s@)
}

/// `-i <input> -ss <start> -t <duration> -c copy -y -progress pipe:1 <output>`
pub open spec fn trim_tokens(
    input: Seq<char>,
    output: Seq<char>,
    start: Seq<char>,
    duration: Seq<char>,
) -> Seq<Seq<char>> {
    seq![
        "-i"@,
        input,
        "-ss"@,
        start,
        "-t"@,
        duration,
        "-c"@,
        "copy"@,
        "-y"@,
        "-progress"@,
        "pipe:1"@,
        output,
    ]
}

/// The scale filter `scale=<width>:<height>`.
pub open spec fn scale_filter(width: u32, height: u32) -> Seq<char> {
    "scale="@ + int_decimal(width as int) + ":"@ + int_decimal(height as int)
}

/// `-i <input> -vf scale=<w>:<h> -c:a copy -y -progress pipe:1 <output>`
pub open spec fn resize_tokens(
    input: Seq<char>,
    output: Seq<char>,
    width: u32,
    height: u32,
) -> Seq<Seq<char>> {
    seq![
        "-i"@,
        input,
        "-vf"@,
        scale_filter(width, height),
        "-c:a"@,
        "copy"@,
        "-y"@,
        "-progress"@,
        "pipe:1"@,
        output,
    ]
}

/// `-f concat -safe 0 -i <manifest> -c copy -y -progress pipe:1 <output>`
pub open spec fn concat_tokens(manifest: Seq<char>, output: Seq<char>) -> Seq<Seq<char>> {
    seq![
        "-f"@,
        "concat"@,
        "-safe"@,
        "0"@,
        "-i"@,
        manifest,
        "-c"@,
        "copy"@,
        "-y"@,
        "-progress"@,
        "pipe:1"@,
        output,
    ]
}

fn tok(s: &str) -> (r: String)
    ensures
        r@ == s@,
{
    s.to_owned()
}

/// Arguments for cutting `duration` seconds from `start` without re-encoding.
/// `start` and `duration` are the decimal forms of the two times in seconds.
pub fn trim_args(input: &str, output: &str, start: &str, duration: &str) -> (r: Vec<String>)
    ensures
        token_views(r@) == trim_tokens(input@, output@, start@, duration@),
{
    let r = vec![
        tok("-i"),
        tok(input),
        tok("-ss"),
        tok(start),
        tok("-t"),
        tok(duration),
        tok("-c"),
        tok("copy"),
        tok("-y"),
        tok("-progress"),
        tok("pipe:1"),
        tok(output),
    ];
    assert(token_views(r@) =~= trim_tokens(input@, output@, start@, duration@));
    r
}

/// The scale filter for a target size.
pub fn scale_arg(width: u32, height: u32) -> (r: String)
    ensures
        r@ == scale_filter(width, height),
{
    let w = decimal_string(width as i64);
    let h = decimal_string(height as i64);
    let r = tok("scale=").concat(w.as_str()).concat(":").concat(h.as_str());
    r
}

/// Arguments for scaling the video to `width` x `height`, copying the audio.
pub fn resize_args(input: &str, output: &str, width: u32, height: u32) -> (r: Vec<String>)
    ensures
        token_views(r@) == resize_tokens(input@, output@, width, height),
{
    let r = vec![
        tok("-i"),
        tok(input),
        tok("-vf"),
        scale_arg(width, height),
        tok("-c:a"),
        tok("copy"),
        tok("-y"),
        tok("-progress"),
        tok("pipe:1"),
        tok(output),
    ];
    assert(token_views(r@) =~= resize_tokens(input@, output@, width, height));
    r
}

/// Arguments for joining the files listed in a manifest without re-encoding;
/// the listed paths may lie anywhere.
pub fn concat_args(manifest: &str, output: &str) -> (r: Vec<String>)
    ensures
        token_views(r@) == concat_tokens(manifest@, output@),
{
    let r = vec![
        tok("-f"),
        tok("concat"),
        tok("-safe"),
        tok("0"),
        tok("-i"),
        tok(manifest),
        tok("-c"),
        tok("copy"),
        tok("-y"),
        tok("-progress"),
        tok("pipe:1"),
        tok(output),
    ];
    assert(token_views(r@) =~= concat_tokens(manifest@, output@));
    r
}

} // verus!
