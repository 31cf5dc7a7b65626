use vstd::prelude::*;

verus! {

/// The caption used when none is given.
pub open spec fn default_caption() -> Seq<char> {
    "WHAT?"@
}

/// The captions to apply, in order: those given, or the default caption alone
/// when none are.
pub open spec fn caption_list(given: Seq<Seq<char>>) -> Seq<Seq<char>> {
    if given.len() == 0 {
        seq![default_caption()]
    } else {
        given
    }
}

/// The text of each string, in order.
pub open spec fn texts_of(v: Seq<String>) -> Seq<Seq<char>> {
    v.map_values(|s: String| s@)
}

/// The captions to apply for the captions given on the command line.
pub fn captions(given: Vec<String>) -> (r: Vec<String>)
    ensures
        texts_of(r@) == caption_list(texts_of(given@)),
{
    if given.len() == 0 {
        let mut r: Vec<String> = Vec::new();
        r.push("WHAT?".to_owned());
        assert(texts_of(r@) =~= seq![default_caption()]);
        r
    } else {
        given
    }
}

/// Giving no caption is the same as giving the default caption alone.
pub proof fn lemma_default_caption()
    ensures
        caption_list(Seq::empty()) == caption_list(seq![default_caption()]),
{
}

/// The command line: source image, output path, captions and optional font.
pub struct Args {
    /// The image to frame.
    pub image: String,
    /// Where to write the finished image.
    pub output: String,
    /// The captions, one framing pass each.
    pub text: Vec<String>,
    /// A font file to use instead of the built-in one.
    pub font: Option<String>,
}

impl Args {
    /// The captions to apply, in order; see `captions`.
    pub fn into_captions(self) -> (r: Vec<String>)
        ensures
            texts_of(r@) == caption_list(texts_of(self.text@)),
    {
        captions(self.text)
    }
}

} // verus!
