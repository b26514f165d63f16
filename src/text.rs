//! The text of a mesh, its font, and the fingerprint of both.
use vstd::prelude::*;
use crate::layout::{DepthLayout, HorizontalLayout, VerticalLayout};
use crate::mesh::{assemble_mesh, assembled_from, outlines_view, GeneratedMesh, OutlineVertex};

verus! {

/// A text to be turned into a mesh. `height` is the height of an em and
/// `depth` the extrusion depth, both in micrometres; a depth of 0 asks for
/// flat geometry.
pub struct MeshText {
    pub text: String,
    pub height: u32,
    pub depth: u32,
}

/// The identity of the font a text is set in.
#[derive(Clone, Copy, Debug, PartialEq, Eq, Hash, Structural)]
pub struct MeshTextFont(pub u64);

/// The digest that std's default hasher gives of a text, its height, its
/// depth and its font.
pub uninterp spec fn text_fingerprint(text: Seq<char>, height: u32, depth: u32, font: u64) -> u64;

/// Relies on `BuildHasher::hash_one` with std's `DefaultHasher`, whose
/// instances made by `default` all hash alike: the digest depends on the
/// hashed values alone.
#[verifier::external_body]
fn hash_inputs(text: &str, height: u32, depth: u32, font: u64) -> (r: u64)
    ensures
        r == text_fingerprint(text@, height, depth, font),
{
    let hasher = std::hash::BuildHasherDefault::<std::hash::DefaultHasher>::default();
    std::hash::BuildHasher::hash_one(&hasher, (text, height, depth, font))
}

/// The pieces of `s` between its newline characters, in order; there is
/// one more piece than there are newlines.
pub open spec fn split_at_newlines(s: Seq<char>) -> Seq<Seq<char>>
    decreases s.len(),
{
    if s.len() == 0 {
        seq![Seq::empty()]
    } else {
        let rest = split_at_newlines(s.drop_last());
        if s.last() == '\n' {
            rest.push(Seq::empty())
        } else {
            rest.update(rest.len() - 1, rest.last().push(s.last()))
        }
    }
}

/// `line` without one trailing carriage return.
pub open spec fn strip_cr(line: Seq<char>) -> Seq<char> {
    if line.len() > 0 && line.last() == '\r' {
        line.drop_last()
    } else {
        line
    }
}

/// The lines of `s`: split at "\n" or "\r\n", the last line ending being
/// optional, so that an empty text has no lines.
pub open spec fn text_lines(s: Seq<char>) -> Seq<Seq<char>> {
    let pieces = split_at_newlines(s);
    let ended = pieces.drop_last().map_values(|l: Seq<char>| strip_cr(l));
    if pieces.last().len() == 0 {
        ended
    } else {
        ended.push(pieces.last())
    }
}

/// Relies on `str::lines`: it splits at "\n" and at "\r\n", and a final
/// line ending adds no empty line.
#[verifier::external_body]
fn split_lines(text: &str) -> (r: Vec<String>)
    ensures
        r@.map_values(|l: String| l@) == text_lines(text@),
{
    text.lines().map(String::from).collect()
}

impl MeshText {
    /// A text `height` micrometres high per em and `depth` micrometres deep.
    pub fn new(text: String, height: u32, depth: u32) -> (r: Self)
        ensures
            r.text@ == text@,
            r.height == height,
            r.depth == depth,
    {
        MeshText { text, height, depth }
    }

    /// Lays out `outlines`, the outline of each line of this text, at this
    /// text's height and depth.
    pub fn assemble(
        &self,
        outlines: &Vec<Vec<OutlineVertex>>,
        vertical: &VerticalLayout,
        horizontal: &HorizontalLayout,
        depth_layout: &DepthLayout,
    ) -> (mesh: GeneratedMesh)
        ensures
            assembled_from(
                mesh,
                outlines_view(outlines@),
                self.height as int,
                self.depth as int,
                *vertical,
                *horizontal,
                *depth_layout,
            ),
    {
        assemble_mesh(outlines, self.height, self.depth, vertical, horizontal, depth_layout)
    }

    /// The fingerprint of this text set in `font`.
    pub open spec fn spec_fingerprint(&self, font: MeshTextFont) -> u64 {
        text_fingerprint(self.text@, self.height, self.depth, font.0)
    }

    /// A digest of everything a generated mesh depends on but the layouts:
    /// the text, its height, its depth and its font.
    pub fn fingerprint(&self, font: &MeshTextFont) -> (r: u64)
        ensures
            r == self.spec_fingerprint(*font),
    {
        hash_inputs(self.text.as_str(), self.height, self.depth, font.0)
    }

    /// The lines of the text, top line first.
    pub fn lines(&self) -> (r: Vec<String>)
        ensures
            r@.map_values(|l: String| l@) == text_lines(self.text@),
    {
        split_lines(self.text.as_str())
    }

    /// Whether the outlines are to be flat rather than extruded.
    pub fn is_flat(&self) -> (r: bool)
        ensures
            r == (self.depth == 0),
    {
        self.depth == 0
    }
}

/// The fingerprint is a function of the text, the height, the depth and the
/// font: texts that agree on these have the same fingerprint.
pub proof fn fingerprint_depends_on_inputs_only(
    a: MeshText,
    font_a: MeshTextFont,
    b: MeshText,
    font_b: MeshTextFont,
)
    requires
        a.text@ == b.text@,
        a.height == b.height,
        a.depth == b.depth,
        font_a == font_b,
    ensures
        a.spec_fingerprint(font_a) == b.spec_fingerprint(font_b),
{
}

} // verus!
