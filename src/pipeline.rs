//! Specialisation of the render pipeline that draws decals.
use vstd::prelude::*;
use vstd::string::*;

verus! {

/// Prefix put in front of the label of every pipeline specialised for decals.
pub open spec fn decal_label_prefix() -> Seq<char> {
    seq!['d', 'e', 'c', 'a', 'l', '_']
}

/// The label a decal pipeline carries, given the label of the pipeline it
/// was specialised from.
pub open spec fn decal_label_of(label: Seq<char>) -> Seq<char> {
    decal_label_prefix() + label
}

/// Label of a decal pipeline: `decal_` followed by the original label.
pub fn decal_label(label: &str) -> (r: String)
    ensures
        r@ == decal_label_of(label@),
{
    let prefix = String::from_str("decal_");
    proof {
        reveal_strlit("decal_");
        assert("decal_"@ =~= decal_label_prefix());
    }
    prefix.concat(label)
}

/// How a fragment's depth is compared with the depth already stored.
#[derive(Clone, Copy, Debug, PartialEq, Eq, Structural)]
pub enum DepthCompare {
    Never,
    Less,
    Equal,
    LessEqual,
    Greater,
    NotEqual,
    GreaterEqual,
    Always,
}

/// The parts of a render pipeline description that decal specialisation reads
/// and writes.
///
/// `depth_compare` is `None` when the pipeline has no depth-stencil state.
pub struct PipelineSettings {
    pub label: Option<String>,
    pub depth_compare: Option<DepthCompare>,
}

/// Mathematical model of [`PipelineSettings`].
pub struct PipelineSettingsView {
    pub label: Option<Seq<char>>,
    pub depth_compare: Option<DepthCompare>,
}

impl View for PipelineSettings {
    type V = PipelineSettingsView;

    open spec fn view(&self) -> PipelineSettingsView {
        PipelineSettingsView {
            label: match self.label {
                Some(l) => Some(l@),
                None => None,
            },
            depth_compare: self.depth_compare,
        }
    }
}

/// The pipeline a decal is drawn with, given the pipeline it is specialised
/// from: a label gets the decal prefix, and a depth test, where there is one,
/// always passes, so that the decal is drawn over the surface it lies on.
pub open spec fn decal_pipeline(p: PipelineSettingsView) -> PipelineSettingsView {
    PipelineSettingsView {
        label: match p.label {
            Some(l) => Some(decal_label_of(l)),
            None => None,
        },
        depth_compare: match p.depth_compare {
            Some(_) => Some(DepthCompare::Always),
            None => None,
        },
    }
}

impl PipelineSettings {
    /// Specialises these settings for drawing decals (see [`decal_pipeline`]).
    pub fn specialize_for_decal(&mut self)
        ensures
            final(self)@ == decal_pipeline(old(self)@),
    {
        let label = match &self.label {
            Some(l) => Some(decal_label(l.as_str())),
            None => None,
        };
        self.label = label;
        if self.depth_compare.is_some() {
            self.depth_compare = Some(DepthCompare::Always);
        }
    }
}

} // verus!
