//! What a job assembles at its end and what it removes: the plan of the
//! concatenation, the transcoder's command line and the list of leftovers.

use crate::segment::{SegmentState, SegmentView};
use crate::text::{pieces, split, text_of, views};
use vstd::prelude::*;

verus! {

/// How the output of a job is put together.
#[derive(Debug)]
pub struct Assembly {
    /// The files to concatenate, in this order.
    pub inputs: Vec<String>,
    /// The file that receives the concatenation.
    pub output: String,
    /// Where the concatenation is only an intermediate: the file that the
    /// transcoder makes of it.
    pub transcode: Option<String>,
}

/// What an [`Assembly`] holds.
pub struct AssemblyView {
    pub inputs: Seq<Seq<char>>,
    pub output: Seq<char>,
    pub transcode: Option<Seq<char>>,
}

impl View for Assembly {
    type V = AssemblyView;

    open spec fn view(&self) -> AssemblyView {
        AssemblyView {
            inputs: views(self.inputs@),
            output: self.output@,
            transcode: match self.transcode {
                Some(path) => Some(path@),
                None => None,
            },
        }
    }
}

impl Clone for Assembly {
    fn clone(&self) -> (copy: Self)
        ensures
            copy@ == self@,
    {
        let mut inputs: Vec<String> = Vec::new();
        let mut i: usize = 0;
        while i < self.inputs.len()
            invariant
                i <= self.inputs.len(),
                inputs.len() == i,
                forall|k: int| 0 <= k < i ==> (#[trigger] inputs@[k])@ == self.inputs@[k]@,
            decreases self.inputs.len() - i,
        {
            inputs.push(self.inputs[i].clone());
            i += 1;
        }
        assert(views(inputs@) =~= views(self.inputs@));
        Assembly {
            inputs,
            output: self.output.clone(),
            transcode: match &self.transcode {
                Some(path) => Some(path.clone()),
                None => None,
            },
        }
    }
}

/// The files of the segments that are not done, in the order of the plan.
pub open spec fn unfinished_files(segments: Seq<SegmentView>) -> Seq<Seq<char>>
    decreases segments.len(),
{
    if segments.len() == 0 {
        Seq::empty()
    } else if segments.last().state == SegmentState::Done {
        unfinished_files(segments.drop_last())
    } else {
        unfinished_files(segments.drop_last()).push(segments.last().save_file)
    }
}

/// The command line that turns the intermediate `input` into `output`
/// without re-encoding.
pub open spec fn transcoder_command(input: Seq<char>, output: Seq<char>) -> Seq<Seq<char>> {
    seq!["ffmpeg"@, "-i"@, input, "-c"@, "copy"@, output]
}

/// Whether `file` is the file of a segment that is not done.
pub open spec fn is_leftover(segments: Seq<SegmentView>, file: Seq<char>) -> bool {
    exists|i: int|
        0 <= i < segments.len() && (#[trigger] segments[i]).state != SegmentState::Done
            && segments[i].save_file == file
}

/// Cleanup: the files to remove hold the file of every segment that is not
/// done, and every file among them is that of a segment that is not done.
pub proof fn lemma_cleanup_covers(segments: Seq<SegmentView>)
    ensures
        forall|i: int|
            0 <= i < segments.len() && (#[trigger] segments[i]).state != SegmentState::Done
                ==> unfinished_files(segments).contains(segments[i].save_file),
        forall|k: int|
            0 <= k < unfinished_files(segments).len() ==> is_leftover(
                segments,
                #[trigger] unfinished_files(segments)[k],
            ),
    decreases segments.len(),
{
    if segments.len() > 0 {
        let front = segments.drop_last();
        let last = segments.last();
        let listed = unfinished_files(segments);
        let before = unfinished_files(front);
        lemma_cleanup_covers(front);
        assert forall|i: int|
            0 <= i < segments.len() && (#[trigger] segments[i]).state
                != SegmentState::Done implies listed.contains(segments[i].save_file) by {
            if i < front.len() {
                assert(front[i] == segments[i]);
                assert(before.contains(front[i].save_file));
                let k = choose|k: int| 0 <= k < before.len() && before[k] == front[i].save_file;
                assert(listed[k] == before[k]);
            } else {
                assert(listed[listed.len() - 1] == last.save_file);
            }
        }
        assert forall|k: int| 0 <= k < listed.len() implies is_leftover(
            segments,
            #[trigger] listed[k],
        ) by {
            if k < before.len() {
                assert(listed[k] == before[k]);
                assert(is_leftover(front, before[k]));
                let i = choose|i: int|
                    0 <= i < front.len() && (#[trigger] front[i]).state != SegmentState::Done
                        && front[i].save_file == before[k];
                assert(segments[i] == front[i]);
            } else {
                assert(segments[segments.len() - 1] == last);
            }
        }
    }
}

/// The extension of a path whose parts `/` separates: what follows the
/// last dot in its last part, the file name. There is none where the file
/// name has no dot, where its only dot is its first character, and where it
/// is `..`.
pub open spec fn extension_of(path: Seq<char>) -> Option<Seq<char>> {
    let name = pieces(path, '/').last();
    let parts = pieces(name, '.');
    if parts.len() < 2 || name == ".."@ || (parts.len() == 2 && parts[0].len() == 0) {
        None
    } else {
        Some(parts.last())
    }
}

/// The extension of a path whose parts `/` separates.
pub fn extension(path: &str) -> (r: Option<String>)
    ensures
        text_of(r) == extension_of(path@),
{
    let folders = split(path, '/');
    let name = folders[folders.len() - 1].as_str();
    assert(views(folders@).last() == folders@[folders.len() - 1]@);
    if name.eq("..") {
        return None;
    }
    let mut parts = split(name, '.');
    assert(views(parts@)[0] == parts@[0]@);
    assert(views(parts@).last() == parts@[parts.len() - 1]@);
    if parts.len() < 2 || (parts.len() == 2 && parts[0].as_str().unicode_len() == 0) {
        None
    } else {
        parts.pop()
    }
}

} // verus!
