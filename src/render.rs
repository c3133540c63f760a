use vstd::prelude::*;
use vstd::string::*;

use crate::text::chars_of;

verus! {

/// Suffix of the capture of the real-time player, at the chip's native rate.
pub const REALTIME_SUFFIX: &'static str = "_realtime.wav";

/// Suffix of the render resampled to 48 000 Hz.
pub const DEBUG48K_SUFFIX: &'static str = "_debug48k.wav";

/// Suffix of the one-shot render at the chip's native 55 930 Hz.
pub const DEBUG55K_SUFFIX: &'static str = "_debug55k.wav";

pub open spec fn wav_ext() -> Seq<char> {
    seq!['.', 'w', 'a', 'v']
}

/// The base of the output files: `output` with one trailing `.wav` removed
/// (matched case-sensitively), else `output` itself.
pub open spec fn render_base(output: Seq<char>) -> Seq<char> {
    if output.len() >= 4 && output.subrange(output.len() - 4, output.len() as int) == wav_ext() {
        output.subrange(0, output.len() - 4)
    } else {
        output
    }
}

/// The three files that rendering to `output` writes, in the order written.
pub open spec fn render_files(output: Seq<char>) -> Seq<Seq<char>> {
    seq![
        render_base(output) + REALTIME_SUFFIX@,
        render_base(output) + DEBUG48K_SUFFIX@,
        render_base(output) + DEBUG55K_SUFFIX@,
    ]
}

/// Removes one trailing `.wav` from `output`.
pub fn wav_base(output: &str) -> (r: String)
    ensures
        r@ == render_base(output@),
{
    let s = chars_of(output);
    let n = s.len();
    if n >= 4 && s[n - 4] == '.' && s[n - 3] == 'w' && s[n - 2] == 'a' && s[n - 1] == 'v' {
        assert(output@.subrange(n - 4, n as int) =~= wav_ext());
        String::from_str(output.substring_char(0, n - 4))
    } else {
        assert(n >= 4 ==> output@.subrange(n - 4, n as int)[0] == output@[n - 4]);
        assert(n >= 4 ==> output@.subrange(n - 4, n as int)[1] == output@[n - 3]);
        assert(n >= 4 ==> output@.subrange(n - 4, n as int)[2] == output@[n - 2]);
        assert(n >= 4 ==> output@.subrange(n - 4, n as int)[3] == output@[n - 1]);
        String::from_str(output)
    }
}

/// The paths of the three WAV files that rendering to `output` writes.
pub fn render_targets(output: &str) -> (r: Vec<String>)
    ensures
        r@.len() == 3,
        forall|i: int| 0 <= i < 3 ==> #[trigger] r@[i]@ == render_files(output@)[i],
{
    let base = wav_base(output);
    let mut r: Vec<String> = Vec::new();
    r.push(base.clone().concat(REALTIME_SUFFIX));
    r.push(base.clone().concat(DEBUG48K_SUFFIX));
    r.push(base.concat(DEBUG55K_SUFFIX));
    r
}

/// One trailing `.wav` is removed, and only one: the base of `b` followed by
/// `.wav` is `b`, whatever `b` ends with (`a.wav.wav` has base `a.wav`).
pub proof fn lemma_strips_one_wav(b: Seq<char>)
    ensures
        render_base(b + wav_ext()) == b,
{
    let o = b + wav_ext();
    assert(o.subrange(o.len() - 4, o.len() as int) =~= wav_ext());
    assert(o.subrange(0, o.len() - 4) =~= b);
}

/// An output path that does not end in `.wav` is itself the base.
pub proof fn lemma_other_output_kept(o: Seq<char>)
    requires
        !(o.len() >= 4 && o.subrange(o.len() - 4, o.len() as int) == wav_ext()),
    ensures
        render_base(o) == o,
{
}

} // verus!
