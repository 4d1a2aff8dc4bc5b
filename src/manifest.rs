use crate::error::CommandError;
use vstd::prelude::*;
use vstd::utf8::encode_utf8;

verus! {

/// A path byte as the manifest grammar wants it: `\` becomes `/`.
pub open spec fn forward_slash(b: u8) -> u8 {
    if b == 92 {
        47
    } else {
        b
    }
}

/// `file '<path>'\n`, with backslashes turned into forward slashes.
pub open spec fn manifest_entry(path: Seq<u8>) -> Seq<u8> {
    seq![102u8, 105, 108, 101, 32, 39] + path.map_values(|b: u8| forward_slash(b)) + seq![
        39u8,
        10,
    ]
}

/// One entry per path, in order.
pub open spec fn manifest_of(paths: Seq<Seq<u8>>) -> Seq<u8>
    decreases paths.len(),
{
    if paths.len() == 0 {
        Seq::empty()
    } else {
        manifest_of(paths.drop_last()) + manifest_entry(paths.last())
    }
}

/// The UTF-8 bytes of each path.
pub open spec fn path_bytes(inputs: Seq<String>) -> Seq<Seq<u8>> {
    inputs.map_values(|s: String| encode_utf8(s@))
}

fn push_entry(out: &mut Vec<u8>, path: &str)
    ensures
        final(out)@ == old(out)@ + manifest_entry(encode_utf8(path@)),
{
    let b = path.as_bytes();
    let ghost start = out@;
    out.push(102u8);
    out.push(105u8);
    out.push(108u8);
    out.push(101u8);
    out.push(32u8);
    out.push(39u8);
    let ghost head = out@;
    let mut i: usize = 0;
    while i < b.len()
        invariant
            i <= b@.len(),
            b@ == encode_utf8(path@),
            out@ == head + b@.subrange(0, i as int).map_values(|c: u8| forward_slash(c)),
        decreases b@.len() - i,
    {
        let c = b[i];
        let d: u8 = if c == 92u8 {
            47u8
        } else {
            c
        };
        out.push(d);
        assert(b@.subrange(0, i + 1).map_values(|c: u8| forward_slash(c)) =~= b@.subrange(
            0,
            i as int,
        ).map_values(|c: u8| forward_slash(c)).push(d));
        i = i + 1;
    }
    out.push(39u8);
    out.push(10u8);
    assert(b@.subrange(0, b@.len() as int) =~= b@);
    assert(out@ =~= start + manifest_entry(encode_utf8(path@)));
}

/// The contents of the manifest that lists `inputs` for concatenation, as
/// UTF-8 bytes: one line `file '<path>'` per input, in order, with every
/// backslash turned into a forward slash.
///
/// An empty list has no manifest: it is refused with an I/O error.
pub fn concat_manifest(inputs: &Vec<String>) -> (r: Result<Vec<u8>, CommandError>)
    ensures
        inputs@.len() == 0 <==> r is Err,
        r matches Err(e) ==> e is IoError,
        r matches Ok(m) ==> m@ == manifest_of(path_bytes(inputs@)),
{
    if inputs.len() == 0 {
        return Err(CommandError::IoError("empty manifest".to_owned()));
    }
    let mut out: Vec<u8> = Vec::new();
    let mut i: usize = 0;
    while i < inputs.len()
        invariant
            i <= inputs@.len(),
            out@ == manifest_of(path_bytes(inputs@.subrange(0, i as int))),
        decreases inputs@.len() - i,
    {
        push_entry(&mut out, inputs[i].as_str());
        assert(path_bytes(inputs@.subrange(0, i + 1)).drop_last() =~= path_bytes(
            inputs@.subrange(0, i as int),
        ));
        i = i + 1;
    }
    assert(inputs@.subrange(0, i as int) =~= inputs@);
    Ok(out)
}

} // verus!
