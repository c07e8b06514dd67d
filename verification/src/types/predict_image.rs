//! Image prediction: the request shape and the response.  Generated
//! image bytes are kept in their base64 text form as received.

use vstd::prelude::*;

use crate::error::Error;
use crate::json::{
    parse_json, parsed_json, spec_bound_str, spec_get, spec_obj_get, spec_req_arr, spec_req_str,
    Json,
};

verus! {

/// One image prompt.
#[derive(Clone, Debug, PartialEq)]
pub struct PredictImageRequestPrompt {
    pub prompt: String,
}

/// Whether `v` encodes the prompt `p`.
pub open spec fn spec_image_prompt_json_ok(v: Json, p: PredictImageRequestPrompt) -> bool {
    spec_get(v, "prompt"@) == Some(Json::Str(p.prompt))
}

impl PredictImageRequestPrompt {
    /// Encodes this prompt.
    pub fn to_json(&self) -> (j: Json)
        ensures
            spec_image_prompt_json_ok(j, *self),
    {
        broadcast use crate::json::lemma_obj_get_push;

        let mut entries: Vec<(String, Json)> = Vec::new();
        entries.push((String::from_str("prompt"), Json::Str(self.prompt.clone())));
        Json::Obj(entries)
    }
}

/// Who may appear in generated images.
#[derive(Clone, Copy, Debug, PartialEq, Eq, Structural)]
pub enum PersonGeneration {
    DontAllow,
    AllowAdult,
    AllowAll,
}

/// The wire name of a person-generation policy.
pub open spec fn spec_person_generation_text(p: PersonGeneration) -> Seq<char> {
    match p {
        PersonGeneration::DontAllow => "dont_allow"@,
        PersonGeneration::AllowAdult => "allow_adult"@,
        PersonGeneration::AllowAll => "allow_all"@,
    }
}

impl PersonGeneration {
    /// The wire name of this policy.
    pub fn as_str(&self) -> (r: &'static str)
        ensures
            r@ == spec_person_generation_text(*self),
    {
        match self {
            PersonGeneration::DontAllow => "dont_allow",
            PersonGeneration::AllowAdult => "allow_adult",
            PersonGeneration::AllowAll => "allow_all",
        }
    }
}

/// How strictly generated images are filtered.
#[derive(Clone, Copy, Debug, PartialEq, Eq, Structural)]
pub enum PredictImageSafetySetting {
    BlockLowAndAbove,
    BlockMediumAndAbove,
    BlockOnlyHigh,
    BlockNone,
}

/// The wire name of an image safety setting.
pub open spec fn spec_image_safety_text(s: PredictImageSafetySetting) -> Seq<char> {
    match s {
        PredictImageSafetySetting::BlockLowAndAbove => "block_low_and_above"@,
        PredictImageSafetySetting::BlockMediumAndAbove => "block_medium_and_above"@,
        PredictImageSafetySetting::BlockOnlyHigh => "block_only_high"@,
        PredictImageSafetySetting::BlockNone => "block_none"@,
    }
}

impl PredictImageSafetySetting {
    /// The wire name of this setting.
    pub fn as_str(&self) -> (r: &'static str)
        ensures
            r@ == spec_image_safety_text(*self),
    {
        match self {
            PredictImageSafetySetting::BlockLowAndAbove => "block_low_and_above",
            PredictImageSafetySetting::BlockMediumAndAbove => "block_medium_and_above",
            PredictImageSafetySetting::BlockOnlyHigh => "block_only_high",
            PredictImageSafetySetting::BlockNone => "block_none",
        }
    }
}

/// The output format of a generated image.
#[derive(Clone, Debug, PartialEq)]
pub struct PredictImageRequestParametersOutputOptions {
    pub mime_type: Option<String>,
    pub compression_quality: Option<i32>,
}

/// Whether `v` encodes the output options `o`.  Both members are bound
/// even when unset, as null; the service treats null as the default.
pub open spec fn spec_output_options_json_ok(
    v: Json,
    o: PredictImageRequestParametersOutputOptions,
) -> bool {
    &&& spec_get(v, "mimeType"@) == match o.mime_type {
        Some(m) => Some(Json::Str(m)),
        None => Some(Json::Null),
    }
    &&& spec_get(v, "compressionQuality"@) == match o.compression_quality {
        Some(q) => Some(Json::Int(q as i64)),
        None => Some(Json::Null),
    }
}

impl PredictImageRequestParametersOutputOptions {
    /// Encodes these options.
    pub fn to_json(&self) -> (j: Json)
        ensures
            spec_output_options_json_ok(j, *self),
    {
        broadcast use crate::json::lemma_obj_get_push;

        proof {
            reveal_strlit("mimeType");
            reveal_strlit("compressionQuality");
            assert("mimeType"@.len() == 8);
            assert("compressionQuality"@.len() == 18);
        }
        let mut entries: Vec<(String, Json)> = Vec::new();
        match &self.mime_type {
            Some(m) => {
                entries.push((String::from_str("mimeType"), Json::Str(m.clone())));
            },
            None => {
                entries.push((String::from_str("mimeType"), Json::Null));
            },
        }
        match self.compression_quality {
            Some(q) => {
                entries.push((String::from_str("compressionQuality"), Json::Int(q as i64)));
            },
            None => {
                entries.push((String::from_str("compressionQuality"), Json::Null));
            },
        }
        Json::Obj(entries)
    }
}

/// The knobs of one image-generation call.
#[derive(Clone, Debug, PartialEq, Default)]
pub struct PredictImageRequestParameters {
    pub sample_count: i32,
    pub seed: Option<u32>,
    pub enhance_prompt: Option<bool>,
    pub negative_prompt: Option<String>,
    pub aspect_ratio: Option<String>,
    pub output_options: Option<PredictImageRequestParametersOutputOptions>,
    pub sample_image_style: Option<String>,
    pub person_generation: Option<PersonGeneration>,
    pub language: Option<String>,
    pub safety_setting: Option<PredictImageSafetySetting>,
    pub add_watermark: Option<bool>,
    pub storage_uri: Option<String>,
}

/// Whether `v` encodes the parameters `p`: the sample count is always
/// bound; every other member is bound exactly when set.
pub open spec fn spec_image_parameters_json_ok(v: Json, p: PredictImageRequestParameters) -> bool {
    &&& spec_get(v, "sampleCount"@) == Some(Json::Int(p.sample_count as i64))
    &&& spec_get(v, "seed"@) == match p.seed {
        Some(s) => Some(Json::Int(s as i64)),
        None => None::<Json>,
    }
    &&& spec_get(v, "enhancePrompt"@) == match p.enhance_prompt {
        Some(b) => Some(Json::Bool(b)),
        None => None::<Json>,
    }
    &&& spec_get(v, "negativePrompt"@) == match p.negative_prompt {
        Some(s) => Some(Json::Str(s)),
        None => None::<Json>,
    }
    &&& spec_get(v, "aspectRatio"@) == match p.aspect_ratio {
        Some(s) => Some(Json::Str(s)),
        None => None::<Json>,
    }
    &&& match p.output_options {
        Some(o) => spec_get(v, "outputOptions"@) matches Some(ov) && spec_output_options_json_ok(
            ov,
            o,
        ),
        None => spec_get(v, "outputOptions"@) is None,
    }
    &&& spec_get(v, "sampleImageStyle"@) == match p.sample_image_style {
        Some(s) => Some(Json::Str(s)),
        None => None::<Json>,
    }
    &&& match p.person_generation {
        Some(g) => spec_bound_str(v, "personGeneration"@, spec_person_generation_text(g)),
        None => spec_get(v, "personGeneration"@) is None,
    }
    &&& spec_get(v, "language"@) == match p.language {
        Some(s) => Some(Json::Str(s)),
        None => None::<Json>,
    }
    &&& match p.safety_setting {
        Some(s) => spec_bound_str(v, "safetySetting"@, spec_image_safety_text(s)),
        None => spec_get(v, "safetySetting"@) is None,
    }
    &&& spec_get(v, "addWatermark"@) == match p.add_watermark {
        Some(b) => Some(Json::Bool(b)),
        None => None::<Json>,
    }
    &&& spec_get(v, "storageUri"@) == match p.storage_uri {
        Some(s) => Some(Json::Str(s)),
        None => None::<Json>,
    }
}

impl PredictImageRequestParameters {
    /// Encodes these parameters, leaving unset members off the wire.
    #[verifier::rlimit(50)]
    pub fn to_json(&self) -> (j: Json)
        ensures
            spec_image_parameters_json_ok(j, *self),
    {
        broadcast use crate::json::lemma_obj_get_push;

        proof {
            reveal_strlit("sampleCount");
            reveal_strlit("seed");
            reveal_strlit("enhancePrompt");
            reveal_strlit("negativePrompt");
            reveal_strlit("aspectRatio");
            reveal_strlit("outputOptions");
            reveal_strlit("sampleImageStyle");
            reveal_strlit("personGeneration");
            reveal_strlit("language");
            reveal_strlit("safetySetting");
            reveal_strlit("addWatermark");
            reveal_strlit("storageUri");
            assert("sampleCount"@.len() == 11);
            assert("seed"@.len() == 4);
            assert("enhancePrompt"@.len() == 13);
            assert("negativePrompt"@.len() == 14);
            assert("aspectRatio"@.len() == 11);
            assert("outputOptions"@.len() == 13);
            assert("sampleImageStyle"@.len() == 16);
            assert("personGeneration"@.len() == 16);
            assert("language"@.len() == 8);
            assert("safetySetting"@.len() == 13);
            assert("addWatermark"@.len() == 12);
            assert("storageUri"@.len() == 10);
            assert("sampleCount"@[0] == 's' && "aspectRatio"@[0] == 'a');
            assert("sampleCount"@ != "aspectRatio"@);
            assert("enhancePrompt"@[0] == 'e' && "outputOptions"@[0] == 'o'
                && "safetySetting"@[0] == 's');
            assert("enhancePrompt"@ != "outputOptions"@);
            assert("enhancePrompt"@ != "safetySetting"@);
            assert("outputOptions"@ != "safetySetting"@);
            assert("sampleImageStyle"@[0] == 's' && "personGeneration"@[0] == 'p');
            assert("sampleImageStyle"@ != "personGeneration"@);
        }
        let mut entries: Vec<(String, Json)> = Vec::new();
        entries.push((String::from_str("sampleCount"), Json::Int(self.sample_count as i64)));
        proof {
            assert(spec_obj_get(entries@, "sampleCount"@) == Some(Json::Int(self.sample_count as i64)));
        }
        match self.seed {
            Some(s) => {
                entries.push((String::from_str("seed"), Json::Int(s as i64)));
            },
            None => {},
        }
        proof {
            assert(spec_obj_get(entries@, "sampleCount"@) == Some(Json::Int(self.sample_count as i64)));
            assert(spec_obj_get(entries@, "seed"@) == (match self.seed { Some(s) => Some(Json::Int(s as i64)), None => None::<Json> }));
        }
        match self.enhance_prompt {
            Some(b) => {
                entries.push((String::from_str("enhancePrompt"), Json::Bool(b)));
            },
            None => {},
        }
        proof {
            assert(spec_obj_get(entries@, "sampleCount"@) == Some(Json::Int(self.sample_count as i64)));
            assert(spec_obj_get(entries@, "seed"@) == (match self.seed { Some(s) => Some(Json::Int(s as i64)), None => None::<Json> }));
            assert(spec_obj_get(entries@, "enhancePrompt"@) == (match self.enhance_prompt { Some(b) => Some(Json::Bool(b)), None => None::<Json> }));
        }
        match &self.negative_prompt {
            Some(s) => {
                entries.push((String::from_str("negativePrompt"), Json::Str(s.clone())));
            },
            None => {},
        }
        proof {
            assert(spec_obj_get(entries@, "sampleCount"@) == Some(Json::Int(self.sample_count as i64)));
            assert(spec_obj_get(entries@, "seed"@) == (match self.seed { Some(s) => Some(Json::Int(s as i64)), None => None::<Json> }));
            assert(spec_obj_get(entries@, "enhancePrompt"@) == (match self.enhance_prompt { Some(b) => Some(Json::Bool(b)), None => None::<Json> }));
            assert(spec_obj_get(entries@, "negativePrompt"@) == (match self.negative_prompt { Some(s) => Some(Json::Str(s)), None => None::<Json> }));
        }
        match &self.aspect_ratio {
            Some(s) => {
                entries.push((String::from_str("aspectRatio"), Json::Str(s.clone())));
            },
            None => {},
        }
        proof {
            assert(spec_obj_get(entries@, "sampleCount"@) == Some(Json::Int(self.sample_count as i64)));
            assert(spec_obj_get(entries@, "seed"@) == (match self.seed { Some(s) => Some(Json::Int(s as i64)), None => None::<Json> }));
            assert(spec_obj_get(entries@, "enhancePrompt"@) == (match self.enhance_prompt { Some(b) => Some(Json::Bool(b)), None => None::<Json> }));
            assert(spec_obj_get(entries@, "negativePrompt"@) == (match self.negative_prompt { Some(s) => Some(Json::Str(s)), None => None::<Json> }));
            assert(spec_obj_get(entries@, "aspectRatio"@) == (match self.aspect_ratio { Some(s) => Some(Json::Str(s)), None => None::<Json> }));
        }
        match &self.output_options {
            Some(o) => {
                entries.push((String::from_str("outputOptions"), o.to_json()));
            },
            None => {},
        }
        proof {
            assert(spec_obj_get(entries@, "sampleCount"@) == Some(Json::Int(self.sample_count as i64)));
            assert(spec_obj_get(entries@, "seed"@) == (match self.seed { Some(s) => Some(Json::Int(s as i64)), None => None::<Json> }));
            assert(spec_obj_get(entries@, "enhancePrompt"@) == (match self.enhance_prompt { Some(b) => Some(Json::Bool(b)), None => None::<Json> }));
            assert(spec_obj_get(entries@, "negativePrompt"@) == (match self.negative_prompt { Some(s) => Some(Json::Str(s)), None => None::<Json> }));
            assert(spec_obj_get(entries@, "aspectRatio"@) == (match self.aspect_ratio { Some(s) => Some(Json::Str(s)), None => None::<Json> }));
            assert((match self.output_options { Some(o) => spec_obj_get(entries@, "outputOptions"@) matches Some(ov) && spec_output_options_json_ok(ov, o), None => spec_obj_get(entries@, "outputOptions"@) is None }));
        }
        match &self.sample_image_style {
            Some(s) => {
                entries.push((String::from_str("sampleImageStyle"), Json::Str(s.clone())));
            },
            None => {},
        }
        proof {
            assert(spec_obj_get(entries@, "sampleCount"@) == Some(Json::Int(self.sample_count as i64)));
            assert(spec_obj_get(entries@, "seed"@) == (match self.seed { Some(s) => Some(Json::Int(s as i64)), None => None::<Json> }));
            assert(spec_obj_get(entries@, "enhancePrompt"@) == (match self.enhance_prompt { Some(b) => Some(Json::Bool(b)), None => None::<Json> }));
            assert(spec_obj_get(entries@, "negativePrompt"@) == (match self.negative_prompt { Some(s) => Some(Json::Str(s)), None => None::<Json> }));
            assert(spec_obj_get(entries@, "aspectRatio"@) == (match self.aspect_ratio { Some(s) => Some(Json::Str(s)), None => None::<Json> }));
            assert((match self.output_options { Some(o) => spec_obj_get(entries@, "outputOptions"@) matches Some(ov) && spec_output_options_json_ok(ov, o), None => spec_obj_get(entries@, "outputOptions"@) is None }));
            assert(spec_obj_get(entries@, "sampleImageStyle"@) == (match self.sample_image_style { Some(s) => Some(Json::Str(s)), None => None::<Json> }));
        }
        match self.person_generation {
            Some(g) => {
                entries.push((String::from_str("personGeneration"), Json::Str(String::from_str(
                    g.as_str(),
                ))));
            },
            None => {},
        }
        proof {
            assert(spec_obj_get(entries@, "sampleCount"@) == Some(Json::Int(self.sample_count as i64)));
            assert(spec_obj_get(entries@, "seed"@) == (match self.seed { Some(s) => Some(Json::Int(s as i64)), None => None::<Json> }));
            assert(spec_obj_get(entries@, "enhancePrompt"@) == (match self.enhance_prompt { Some(b) => Some(Json::Bool(b)), None => None::<Json> }));
            assert(spec_obj_get(entries@, "negativePrompt"@) == (match self.negative_prompt { Some(s) => Some(Json::Str(s)), None => None::<Json> }));
            assert(spec_obj_get(entries@, "aspectRatio"@) == (match self.aspect_ratio { Some(s) => Some(Json::Str(s)), None => None::<Json> }));
            assert((match self.output_options { Some(o) => spec_obj_get(entries@, "outputOptions"@) matches Some(ov) && spec_output_options_json_ok(ov, o), None => spec_obj_get(entries@, "outputOptions"@) is None }));
            assert(spec_obj_get(entries@, "sampleImageStyle"@) == (match self.sample_image_style { Some(s) => Some(Json::Str(s)), None => None::<Json> }));
            assert((match self.person_generation { Some(g) => spec_obj_get(entries@, "personGeneration"@) matches Some(pv) && (pv matches Json::Str(ps) && ps@ == spec_person_generation_text(g)), None => spec_obj_get(entries@, "personGeneration"@) is None }));
        }
        match &self.language {
            Some(s) => {
                entries.push((String::from_str("language"), Json::Str(s.clone())));
            },
            None => {},
        }
        proof {
            assert(spec_obj_get(entries@, "sampleCount"@) == Some(Json::Int(self.sample_count as i64)));
            assert(spec_obj_get(entries@, "seed"@) == (match self.seed { Some(s) => Some(Json::Int(s as i64)), None => None::<Json> }));
            assert(spec_obj_get(entries@, "enhancePrompt"@) == (match self.enhance_prompt { Some(b) => Some(Json::Bool(b)), None => None::<Json> }));
            assert(spec_obj_get(entries@, "negativePrompt"@) == (match self.negative_prompt { Some(s) => Some(Json::Str(s)), None => None::<Json> }));
            assert(spec_obj_get(entries@, "aspectRatio"@) == (match self.aspect_ratio { Some(s) => Some(Json::Str(s)), None => None::<Json> }));
            assert((match self.output_options { Some(o) => spec_obj_get(entries@, "outputOptions"@) matches Some(ov) && spec_output_options_json_ok(ov, o), None => spec_obj_get(entries@, "outputOptions"@) is None }));
            assert(spec_obj_get(entries@, "sampleImageStyle"@) == (match self.sample_image_style { Some(s) => Some(Json::Str(s)), None => None::<Json> }));
            assert((match self.person_generation { Some(g) => spec_obj_get(entries@, "personGeneration"@) matches Some(pv) && (pv matches Json::Str(ps) && ps@ == spec_person_generation_text(g)), None => spec_obj_get(entries@, "personGeneration"@) is None }));
            assert(spec_obj_get(entries@, "language"@) == (match self.language { Some(s) => Some(Json::Str(s)), None => None::<Json> }));
        }
        match self.safety_setting {
            Some(ss) => {
                entries.push((String::from_str("safetySetting"), Json::Str(String::from_str(
                    ss.as_str(),
                ))));
            },
            None => {},
        }
        proof {
            assert(spec_obj_get(entries@, "sampleCount"@) == Some(Json::Int(self.sample_count as i64)));
            assert(spec_obj_get(entries@, "seed"@) == (match self.seed { Some(s) => Some(Json::Int(s as i64)), None => None::<Json> }));
            assert(spec_obj_get(entries@, "enhancePrompt"@) == (match self.enhance_prompt { Some(b) => Some(Json::Bool(b)), None => None::<Json> }));
            assert(spec_obj_get(entries@, "negativePrompt"@) == (match self.negative_prompt { Some(s) => Some(Json::Str(s)), None => None::<Json> }));
            assert(spec_obj_get(entries@, "aspectRatio"@) == (match self.aspect_ratio { Some(s) => Some(Json::Str(s)), None => None::<Json> }));
            assert((match self.output_options { Some(o) => spec_obj_get(entries@, "outputOptions"@) matches Some(ov) && spec_output_options_json_ok(ov, o), None => spec_obj_get(entries@, "outputOptions"@) is None }));
            assert(spec_obj_get(entries@, "sampleImageStyle"@) == (match self.sample_image_style { Some(s) => Some(Json::Str(s)), None => None::<Json> }));
            assert((match self.person_generation { Some(g) => spec_obj_get(entries@, "personGeneration"@) matches Some(pv) && (pv matches Json::Str(ps) && ps@ == spec_person_generation_text(g)), None => spec_obj_get(entries@, "personGeneration"@) is None }));
            assert(spec_obj_get(entries@, "language"@) == (match self.language { Some(s) => Some(Json::Str(s)), None => None::<Json> }));
            assert((match self.safety_setting { Some(ss) => spec_obj_get(entries@, "safetySetting"@) matches Some(sv) && (sv matches Json::Str(st) && st@ == spec_image_safety_text(ss)), None => spec_obj_get(entries@, "safetySetting"@) is None }));
        }
        match self.add_watermark {
            Some(b) => {
                entries.push((String::from_str("addWatermark"), Json::Bool(b)));
            },
            None => {},
        }
        proof {
            assert(spec_obj_get(entries@, "sampleCount"@) == Some(Json::Int(self.sample_count as i64)));
            assert(spec_obj_get(entries@, "seed"@) == (match self.seed { Some(s) => Some(Json::Int(s as i64)), None => None::<Json> }));
            assert(spec_obj_get(entries@, "enhancePrompt"@) == (match self.enhance_prompt { Some(b) => Some(Json::Bool(b)), None => None::<Json> }));
            assert(spec_obj_get(entries@, "negativePrompt"@) == (match self.negative_prompt { Some(s) => Some(Json::Str(s)), None => None::<Json> }));
            assert(spec_obj_get(entries@, "aspectRatio"@) == (match self.aspect_ratio { Some(s) => Some(Json::Str(s)), None => None::<Json> }));
            assert((match self.output_options { Some(o) => spec_obj_get(entries@, "outputOptions"@) matches Some(ov) && spec_output_options_json_ok(ov, o), None => spec_obj_get(entries@, "outputOptions"@) is None }));
            assert(spec_obj_get(entries@, "sampleImageStyle"@) == (match self.sample_image_style { Some(s) => Some(Json::Str(s)), None => None::<Json> }));
            assert((match self.person_generation { Some(g) => spec_obj_get(entries@, "personGeneration"@) matches Some(pv) && (pv matches Json::Str(ps) && ps@ == spec_person_generation_text(g)), None => spec_obj_get(entries@, "personGeneration"@) is None }));
            assert(spec_obj_get(entries@, "language"@) == (match self.language { Some(s) => Some(Json::Str(s)), None => None::<Json> }));
            assert((match self.safety_setting { Some(ss) => spec_obj_get(entries@, "safetySetting"@) matches Some(sv) && (sv matches Json::Str(st) && st@ == spec_image_safety_text(ss)), None => spec_obj_get(entries@, "safetySetting"@) is None }));
            assert(spec_obj_get(entries@, "addWatermark"@) == (match self.add_watermark { Some(b) => Some(Json::Bool(b)), None => None::<Json> }));
        }
        match &self.storage_uri {
            Some(s) => {
                entries.push((String::from_str("storageUri"), Json::Str(s.clone())));
            },
            None => {},
        }
        proof {
            assert(spec_obj_get(entries@, "sampleCount"@) == Some(Json::Int(self.sample_count as i64)));
            assert(spec_obj_get(entries@, "seed"@) == (match self.seed { Some(s) => Some(Json::Int(s as i64)), None => None::<Json> }));
            assert(spec_obj_get(entries@, "enhancePrompt"@) == (match self.enhance_prompt { Some(b) => Some(Json::Bool(b)), None => None::<Json> }));
            assert(spec_obj_get(entries@, "negativePrompt"@) == (match self.negative_prompt { Some(s) => Some(Json::Str(s)), None => None::<Json> }));
            assert(spec_obj_get(entries@, "aspectRatio"@) == (match self.aspect_ratio { Some(s) => Some(Json::Str(s)), None => None::<Json> }));
            assert((match self.output_options { Some(o) => spec_obj_get(entries@, "outputOptions"@) matches Some(ov) && spec_output_options_json_ok(ov, o), None => spec_obj_get(entries@, "outputOptions"@) is None }));
            assert(spec_obj_get(entries@, "sampleImageStyle"@) == (match self.sample_image_style { Some(s) => Some(Json::Str(s)), None => None::<Json> }));
            assert((match self.person_generation { Some(g) => spec_obj_get(entries@, "personGeneration"@) matches Some(pv) && (pv matches Json::Str(ps) && ps@ == spec_person_generation_text(g)), None => spec_obj_get(entries@, "personGeneration"@) is None }));
            assert(spec_obj_get(entries@, "language"@) == (match self.language { Some(s) => Some(Json::Str(s)), None => None::<Json> }));
            assert((match self.safety_setting { Some(ss) => spec_obj_get(entries@, "safetySetting"@) matches Some(sv) && (sv matches Json::Str(st) && st@ == spec_image_safety_text(ss)), None => spec_obj_get(entries@, "safetySetting"@) is None }));
            assert(spec_obj_get(entries@, "addWatermark"@) == (match self.add_watermark { Some(b) => Some(Json::Bool(b)), None => None::<Json> }));
            assert(spec_obj_get(entries@, "storageUri"@) == (match self.storage_uri { Some(s) => Some(Json::Str(s)), None => None::<Json> }));
        }
        Json::Obj(entries)
    }
}

/// One image-generation request: the prompts and the parameters.
#[derive(Clone, Debug, PartialEq)]
pub struct PredictImageRequest {
    pub instances: Vec<PredictImageRequestPrompt>,
    pub parameters: PredictImageRequestParameters,
}

impl PredictImageRequest {
    /// Encodes this request.
    pub fn to_json(&self) -> (j: Json)
        ensures
            (match spec_get(j, "instances"@) {
                Some(Json::Arr(elems)) => elems@.len() == self.instances@.len() && forall|k: int|
                    0 <= k < self.instances@.len() ==> spec_image_prompt_json_ok(
                        #[trigger] elems@[k],
                        self.instances@[k],
                    ),
                _ => false,
            }),
            (match spec_get(j, "parameters"@) {
                Some(v) => spec_image_parameters_json_ok(v, self.parameters),
                None => false,
            }),
    {
        broadcast use crate::json::lemma_obj_get_push;

        proof {
            reveal_strlit("instances");
            reveal_strlit("parameters");
            assert("instances"@.len() == 9);
            assert("parameters"@.len() == 10);
        }
        let mut elems: Vec<Json> = Vec::new();
        let n = self.instances.len();
        let mut i: usize = 0;
        while i < n
            invariant
                i <= n,
                n == self.instances@.len(),
                elems@.len() == i,
                forall|k: int|
                    0 <= k < i ==> spec_image_prompt_json_ok(
                        #[trigger] elems@[k],
                        self.instances@[k],
                    ),
            decreases n - i,
        {
            elems.push(self.instances[i].to_json());
            i = i + 1;
        }
        let mut entries: Vec<(String, Json)> = Vec::new();
        entries.push((String::from_str("instances"), Json::Arr(elems)));
        entries.push((String::from_str("parameters"), self.parameters.to_json()));
        Json::Obj(entries)
    }
}

/// One generated image: its bytes in the base64 text form received, and
/// its MIME type.
#[derive(Clone, Debug, PartialEq)]
pub struct PredictImageResponsePrediction {
    pub bytes_base64_encoded: String,
    pub mime_type: String,
}

/// Mathematical image of [`PredictImageResponsePrediction`].
pub ghost struct PredictImageResponsePredictionView {
    pub bytes_base64_encoded: Seq<char>,
    pub mime_type: Seq<char>,
}

impl DeepView for PredictImageResponsePrediction {
    type V = PredictImageResponsePredictionView;

    open spec fn deep_view(&self) -> PredictImageResponsePredictionView {
        PredictImageResponsePredictionView {
            bytes_base64_encoded: self.bytes_base64_encoded.deep_view(),
            mime_type: self.mime_type.deep_view(),
        }
    }
}

/// A decoded image response.
#[derive(Clone, Debug, PartialEq)]
pub struct PredictImageResponse {
    pub predictions: Vec<PredictImageResponsePrediction>,
}

/// Mathematical image of [`PredictImageResponse`].
pub ghost struct PredictImageResponseView {
    pub predictions: Seq<PredictImageResponsePredictionView>,
}

impl DeepView for PredictImageResponse {
    type V = PredictImageResponseView;

    open spec fn deep_view(&self) -> PredictImageResponseView {
        PredictImageResponseView { predictions: self.predictions.deep_view() }
    }
}

/// The prediction an element decodes to: the base64 text and the MIME
/// type, both required strings.
pub open spec fn spec_image_prediction_from(j: Json) -> Option<
    PredictImageResponsePredictionView,
> {
    match (spec_req_str(j, "bytesBase64Encoded"@), spec_req_str(j, "mimeType"@)) {
        (Some(b), Some(m)) => Some(
            PredictImageResponsePredictionView { bytes_base64_encoded: b@, mime_type: m@ },
        ),
        _ => None,
    }
}

/// The predictions a `predictions` array decodes to.
pub open spec fn spec_image_predictions_from(s: Seq<Json>) -> Option<
    Seq<PredictImageResponsePredictionView>,
> {
    if forall|k: int| 0 <= k < s.len() ==> spec_image_prediction_from(#[trigger] s[k]) is Some {
        Some(Seq::new(s.len(), |k: int| spec_image_prediction_from(s[k])->0))
    } else {
        None
    }
}

/// The response a value decodes to: the predictions array is required.
pub open spec fn spec_image_response_from(j: Json) -> Option<PredictImageResponseView> {
    match spec_req_arr(j, "predictions"@) {
        Some(elems) => match spec_image_predictions_from(elems) {
            Some(ps) => Some(PredictImageResponseView { predictions: ps }),
            None => None,
        },
        None => None,
    }
}

fn image_prediction_from(j: &Json) -> (r: Option<PredictImageResponsePrediction>)
    ensures
        match r {
            Some(p) => spec_image_prediction_from(*j) == Some(p.deep_view()),
            None => spec_image_prediction_from(*j) is None,
        },
{
    let bytes_base64_encoded = match j.req_str("bytesBase64Encoded") {
        Some(b) => b,
        None => { return None },
    };
    let mime_type = match j.req_str("mimeType") {
        Some(m) => m,
        None => { return None },
    };
    Some(PredictImageResponsePrediction { bytes_base64_encoded, mime_type })
}

fn image_predictions_from(elems: &Vec<Json>) -> (r: Option<Vec<PredictImageResponsePrediction>>)
    ensures
        match r {
            Some(v) => spec_image_predictions_from(elems@) == Some(v.deep_view()),
            None => spec_image_predictions_from(elems@) is None,
        },
{
    let mut out: Vec<PredictImageResponsePrediction> = Vec::new();
    let n = elems.len();
    let mut i: usize = 0;
    while i < n
        invariant
            i <= n,
            n == elems@.len(),
            out@.len() == i,
            forall|k: int|
                0 <= k < i ==> spec_image_prediction_from(#[trigger] elems@[k]) == Some(
                    out@[k].deep_view(),
                ),
        decreases n - i,
    {
        match image_prediction_from(&elems[i]) {
            Some(p) => { out.push(p) },
            None => {
                assert(spec_image_prediction_from(elems@[i as int]) is None);
                return None;
            },
        }
        i = i + 1;
    }
    assert(spec_image_predictions_from(elems@) matches Some(s) && s =~= out.deep_view());
    Some(out)
}

impl PredictImageResponse {
    /// Decodes one response.
    pub fn from_json(j: &Json) -> (r: Option<PredictImageResponse>)
        ensures
            match r {
                Some(resp) => spec_image_response_from(*j) == Some(resp.deep_view()),
                None => spec_image_response_from(*j) is None,
            },
    {
        let elems = match j.req_arr("predictions") {
            Some(e) => e,
            None => { return None },
        };
        match image_predictions_from(elems) {
            Some(predictions) => Some(PredictImageResponse { predictions }),
            None => None,
        }
    }

    /// Parses and decodes one whole body.
    pub fn from_text(s: &str) -> (r: Result<PredictImageResponse, Error>)
        ensures
            match parsed_json(s@) {
                Some(j) => match spec_image_response_from(j) {
                    Some(v) => r matches Ok(resp) && resp.deep_view() == v,
                    None => r matches Err(e) && e.deep_view() == crate::error::ErrorView::Serde(
                        s@,
                    ),
                },
                None => r matches Err(e) && e.deep_view() == crate::error::ErrorView::Serde(s@),
            },
    {
        match parse_json(s) {
            Some(j) => match PredictImageResponse::from_json(&j) {
                Some(resp) => Ok(resp),
                None => Err(Error::Serde(String::from_str(s))),
            },
            None => Err(Error::Serde(String::from_str(s))),
        }
    }
}

} // verus!
