//! Result assembly: turns the engine's observations into one recognition
//! result — the newline-joined transcript plus one pixel-space bounding
//! box per observed line, in the engine's emission order.

use vstd::prelude::*;
use crate::geometry::{
    BoundingBox, NormQuad, lemma_box_inside_image, map_quad_to_box, spec_map_box,
};
use crate::dims::{probe_dimensions, spec_probed_dims};

verus! {

/// One detected text line as handed over from the recognition engine: the
/// best candidate transcription and the normalized corner geometry.
#[derive(Clone, Debug)]
pub struct Observation {
    pub text: String,
    pub corners: NormQuad,
}

/// Mathematical model of an observation.
#[verifier::ext_equal]
pub struct ObsModel {
    pub text: Seq<char>,
    pub corners: NormQuad,
}

impl Observation {
    pub open spec fn valid(self) -> bool {
        self.corners.valid()
    }

    pub open spec fn model(self) -> ObsModel {
        ObsModel { text: self.text@, corners: self.corners }
    }
}

/// One transcribed line with its pixel-space bounding box.
#[derive(Clone, Debug)]
pub struct OCRBoxItem {
    pub text: String,
    pub x: u64,
    pub y: u64,
    pub w: u64,
    pub h: u64,
}

/// Mathematical model of a box item.
#[verifier::ext_equal]
pub struct BoxModel {
    pub text: Seq<char>,
    pub bbox: BoundingBox,
}

impl OCRBoxItem {
    pub fn new(text: String, x: u64, y: u64, w: u64, h: u64) -> (r: Self)
        ensures
            r.text == text,
            r.x == x && r.y == y && r.w == w && r.h == h,
    {
        OCRBoxItem { text, x, y, w, h }
    }

    pub open spec fn model(self) -> BoxModel {
        BoxModel { text: self.text@, bbox: BoundingBox { x: self.x, y: self.y, w: self.w, h: self.h } }
    }
}

/// One full recognition result: newline-joined transcript, the probed
/// image dimensions, and the per-line boxes in engine emission order.
#[derive(Clone, Debug)]
pub struct OCRResult {
    pub text: String,
    pub image_width: u32,
    pub image_height: u32,
    pub boxes: Vec<OCRBoxItem>,
}

/// Mathematical model of a recognition result.
#[verifier::ext_equal]
pub struct ResultModel {
    pub text: Seq<char>,
    pub image_width: u32,
    pub image_height: u32,
    pub boxes: Seq<BoxModel>,
}

impl OCRResult {
    pub fn new(text: String, image_width: u32, image_height: u32, boxes: Vec<OCRBoxItem>) -> (r: Self)
        ensures
            r.text == text,
            r.image_width == image_width,
            r.image_height == image_height,
            r.boxes == boxes,
    {
        OCRResult { text, image_width, image_height, boxes }
    }

    pub open spec fn model(self) -> ResultModel {
        ResultModel {
            text: self.text@,
            image_width: self.image_width,
            image_height: self.image_height,
            boxes: self.boxes@.map_values(|b: OCRBoxItem| b.model()),
        }
    }
}

/// A failure of the external recognition engine.
#[derive(Clone, Debug)]
pub struct EngineError {
    pub detail: String,
}

/// Models of a sequence of observations.
pub open spec fn obs_models(s: Seq<Observation>) -> Seq<ObsModel> {
    s.map_values(|o: Observation| o.model())
}

/// The full transcript: every observed line, each followed by a newline.
pub open spec fn spec_transcript(obs: Seq<ObsModel>) -> Seq<char>
    decreases obs.len(),
{
    if obs.len() == 0 {
        Seq::empty()
    } else {
        spec_transcript(obs.drop_last()) + obs.last().text + "\n"@
    }
}

/// The box item an observation yields at the given image dimensions.
pub open spec fn spec_box_of(o: ObsModel, width: u32, height: u32) -> BoxModel {
    BoxModel { text: o.text, bbox: spec_map_box(o.corners, width, height) }
}

/// The assembled result for a list of observations and probed dimensions.
pub open spec fn spec_assemble(obs: Seq<ObsModel>, width: u32, height: u32) -> ResultModel {
    ResultModel {
        text: spec_transcript(obs),
        image_width: width,
        image_height: height,
        boxes: obs.map_values(|o: ObsModel| spec_box_of(o, width, height)),
    }
}

/// Composes the transcript and the mapped boxes into one result.
pub fn assemble_result(observations: &Vec<Observation>, width: u32, height: u32) -> (r: OCRResult)
    requires
        forall|i: int| 0 <= i < observations@.len() ==> (#[trigger] observations@[i]).valid(),
    ensures
        r.model() == spec_assemble(obs_models(observations@), width, height),
{
    let ghost ms = obs_models(observations@);
    let mut text = String::new();
    let mut boxes: Vec<OCRBoxItem> = Vec::new();
    let mut i: usize = 0;
    while i < observations.len()
        invariant
            i <= observations@.len(),
            ms == obs_models(observations@),
            forall|k: int| 0 <= k < observations@.len() ==> (#[trigger] observations@[k]).valid(),
            text@ == spec_transcript(ms.take(i as int)),
            boxes@.len() == i,
            forall|j: int| 0 <= j < i ==> (#[trigger] boxes@[j]).model() == spec_box_of(ms[j], width, height),
        decreases observations@.len() - i,
    {
        let ob = &observations[i];
        text.append(ob.text.as_str());
        text.append("\n");
        let bb = map_quad_to_box(&ob.corners, width, height);
        boxes.push(OCRBoxItem::new(ob.text.clone(), bb.x, bb.y, bb.w, bb.h));
        proof {
            assert(ms.take(i + 1).drop_last() =~= ms.take(i as int));
            assert(ms.take(i + 1).last() == ms[i as int]);
        }
        i = i + 1;
    }
    let r = OCRResult::new(text, width, height, boxes);
    proof {
        assert(ms.take(ms.len() as int) =~= ms);
        assert(r.model().boxes =~= spec_assemble(ms, width, height).boxes);
        assert(r.model() =~~= spec_assemble(ms, width, height));
    }
    r
}

/// The soft-failure policy of the engine adapter: a failed engine call is
/// collapsed to "no text found", an empty observation list.
pub fn observations_or_empty(outcome: Result<Vec<Observation>, EngineError>) -> (r: Vec<Observation>)
    ensures
        match outcome {
            Ok(v) => r == v,
            Err(_) => r@.len() == 0,
        },
{
    match outcome {
        Ok(v) => v,
        Err(_) => Vec::new(),
    }
}

/// The observation models an engine outcome contributes: its observations
/// on success, nothing on failure.
pub open spec fn spec_engine_observations(outcome: Result<Seq<ObsModel>, EngineError>) -> Seq<ObsModel> {
    match outcome {
        Ok(v) => v,
        Err(_) => Seq::empty(),
    }
}

pub open spec fn spec_engine_outcome_model(outcome: Result<Vec<Observation>, EngineError>) -> Result<
    Seq<ObsModel>,
    EngineError,
> {
    match outcome {
        Ok(v) => Ok(obs_models(v@)),
        Err(e) => Err(e),
    }
}

/// The whole recognition pipeline after the engine call: probe the image
/// dimensions from the bytes (best effort), normalize an engine failure
/// to an empty observation list, and assemble the result.
pub fn recognize(bytes: &[u8], engine_outcome: Result<Vec<Observation>, EngineError>) -> (r: OCRResult)
    requires
        match engine_outcome {
            Ok(v) => forall|i: int| 0 <= i < v@.len() ==> (#[trigger] v@[i]).valid(),
            Err(_) => true,
        },
    ensures
        r.model() == spec_assemble(
            spec_engine_observations(spec_engine_outcome_model(engine_outcome)),
            spec_probed_dims(bytes@).0,
            spec_probed_dims(bytes@).1,
        ),
{
    let dims = probe_dimensions(bytes);
    let observations = observations_or_empty(engine_outcome);
    proof {
        assert(obs_models(observations@) =~= spec_engine_observations(
            spec_engine_outcome_model(engine_outcome),
        ));
    }
    assemble_result(&observations, dims.0, dims.1)
}

/// Every box of an assembled result lies inside the image whose
/// dimensions were probed: for observations with valid normalized
/// corners, each box has `x + w <= width` and `y + h <= height`.
pub proof fn lemma_result_boxes_inside_image(obs: Seq<ObsModel>, width: u32, height: u32)
    requires
        forall|i: int| 0 <= i < obs.len() ==> (#[trigger] obs[i]).corners.valid(),
    ensures
        forall|i: int|
            0 <= i < spec_assemble(obs, width, height).boxes.len()
                ==> (#[trigger] spec_assemble(obs, width, height).boxes[i]).bbox.x
                + spec_assemble(obs, width, height).boxes[i].bbox.w <= width && spec_assemble(
                obs,
                width,
                height,
            ).boxes[i].bbox.y + spec_assemble(obs, width, height).boxes[i].bbox.h <= height,
{
    assert forall|i: int|
        0 <= i < spec_assemble(obs, width, height).boxes.len() implies (#[trigger] spec_assemble(
        obs,
        width,
        height,
    ).boxes[i]).bbox.x + spec_assemble(obs, width, height).boxes[i].bbox.w <= width
        && spec_assemble(obs, width, height).boxes[i].bbox.y + spec_assemble(
        obs,
        width,
        height,
    ).boxes[i].bbox.h <= height by {
        lemma_box_inside_image(obs[i].corners, width, height);
    }
}

/// Recognition is deterministic: the assembled result is a function of
/// the engine's observations and the probed dimensions alone, so two runs
/// over identical inputs yield identical results.
pub proof fn lemma_recognition_deterministic(
    obs: Seq<ObsModel>,
    width: u32,
    height: u32,
    r1: ResultModel,
    r2: ResultModel,
)
    requires
        r1 == spec_assemble(obs, width, height),
        r2 == spec_assemble(obs, width, height),
    ensures
        r1 == r2,
{
}

} // verus!
