//! Paint cosmetics: how a paint definition becomes the paint's layer, and
//! which cosmetics a query asks for.
use vstd::prelude::*;
use crate::error::{api_error, ApiError, ApiErrorCode, StatusCode};
use crate::ids::Id;
use crate::urls::{parse_url, spec_parse_url};

verus! {

/// How a paint is drawn.
#[derive(Clone, Copy, Debug, PartialEq, Eq, Structural)]
pub enum CosmeticPaintFunction {
    LinearGradient,
    RadialGradient,
    Url,
}

/// The shape of a radial gradient.
#[derive(Clone, Copy, Debug, PartialEq, Eq, Structural)]
pub enum CosmeticPaintShape {
    Circle,
    Ellipse,
}

/// A paint definition as a client sends it, but for its gradient stops and
/// shadows, which are carried to the stored paint as they are.
#[derive(Clone, Debug)]
pub struct PaintDefinition {
    pub name: String,
    pub function: CosmeticPaintFunction,
    pub color: Option<u32>,
    pub angle: Option<u32>,
    pub shape: Option<CosmeticPaintShape>,
    pub image_url: Option<String>,
    pub repeat: bool,
}

/// The paint's single layer, as far as the definition decides it. An image
/// layer still has to be fetched from the URL and handed to the image
/// processor.
#[derive(Clone, Debug)]
pub enum PaintLayerPlan {
    LinearGradient { angle: i32, repeating: bool },
    RadialGradient { angle: i32, repeating: bool, shape: CosmeticPaintShape },
    FetchImage { url: String },
}

/// How fetching a paint's image went.
#[derive(Clone, Copy, Debug, PartialEq, Eq, Structural)]
pub enum ImageFetch {
    /// The image came back whole.
    Fetched,
    /// The server answered with success, but the body could not be read.
    ReadFailed,
    /// The server answered with an unsuccessful status.
    BadStatus,
    /// The request did not go through.
    RequestFailed,
}

/// Where the image processor will put an uploaded image.
#[derive(Clone, Debug)]
pub struct UploadInfo {
    pub path: Option<String>,
    pub content_type: String,
    pub size: u64,
}

/// The image processor's answer to an upload.
#[derive(Clone, Debug)]
pub struct ProcessImageResponse {
    pub id: String,
    pub upload_info: Option<UploadInfo>,
    /// Whether the answer carries an error.
    pub failed: bool,
}

/// An image that the image processor is still working on.
#[derive(Clone, Debug)]
pub struct PendingImage {
    pub task_id: String,
    pub path: String,
    pub mime: String,
    pub size: i64,
}

/// A change a paint update records.
#[derive(Clone, Copy, Debug, PartialEq, Eq, Structural)]
pub enum PaintChange {
    Name,
    Data,
}

/// Which cosmetics a query loads.
#[derive(Clone, Debug)]
pub enum CosmeticsLookup {
    /// Every paint and badge.
    All,
    /// The paints and badges with these ids.
    Ids(Vec<Id>),
}

/// The most ids one cosmetics query may list.
pub const MAX_COSMETICS_LIST: usize = 100;

pub open spec fn invalid_image_url() -> ApiError {
    api_error(StatusCode::BadRequest, ApiErrorCode::BadRequest, "invalid image url")
}

pub open spec fn image_processor_error() -> ApiError {
    api_error(StatusCode::InternalServerError, ApiErrorCode::ImageProcessorError, "image processor error")
}

/// The angle of a gradient layer: the requested one, else 0.
pub open spec fn layer_angle(angle: Option<u32>) -> i32 {
    (match angle {
        Some(a) => a,
        None => 0u32,
    }) as i32
}

/// The mutations on cosmetics.
#[derive(Clone, Copy, Debug, Default)]
pub struct CosmeticsMutation;

impl CosmeticsMutation {
    /// The layer a paint definition asks for: a linear or radial gradient
    /// at the requested angle (0 when none is given), a radial one an
    /// ellipse unless a shape is given; or, for an image paint, its URL as
    /// parsed, which must be given and parse.
    pub fn paint_layer_plan(def: &PaintDefinition) -> (r: Result<PaintLayerPlan, ApiError>)
        ensures
            match def.function {
                CosmeticPaintFunction::LinearGradient => r matches Ok(PaintLayerPlan::LinearGradient { angle, repeating })
                    && angle == layer_angle(def.angle) && repeating == def.repeat,
                CosmeticPaintFunction::RadialGradient => r matches Ok(PaintLayerPlan::RadialGradient { angle, repeating, shape })
                    && angle == layer_angle(def.angle) && repeating == def.repeat && shape == match def.shape {
                        Some(s) => s,
                        None => CosmeticPaintShape::Ellipse,
                    },
                CosmeticPaintFunction::Url => match def.image_url {
                    Some(u) => match spec_parse_url(u@) {
                        Some((href, _)) => r matches Ok(PaintLayerPlan::FetchImage { url }) && url@ == href,
                        None => r == Err::<PaintLayerPlan, ApiError>(invalid_image_url()),
                    },
                    None => r == Err::<PaintLayerPlan, ApiError>(invalid_image_url()),
                },
            },
    {
        let angle: u32 = match def.angle {
            Some(a) => a,
            None => 0,
        };
        match def.function {
            CosmeticPaintFunction::LinearGradient => Ok(
                PaintLayerPlan::LinearGradient { angle: angle as i32, repeating: def.repeat },
            ),
            CosmeticPaintFunction::RadialGradient => {
                let shape = match def.shape {
                    Some(s) => s,
                    None => CosmeticPaintShape::Ellipse,
                };
                Ok(PaintLayerPlan::RadialGradient { angle: angle as i32, repeating: def.repeat, shape })
            },
            CosmeticPaintFunction::Url => {
                let text = match &def.image_url {
                    Some(u) => u,
                    None => {
                        return Err(ApiError::bad_request(ApiErrorCode::BadRequest, "invalid image url"));
                    },
                };
                match parse_url(text.as_str()) {
                    Some((href, _)) => Ok(PaintLayerPlan::FetchImage { url: href }),
                    None => Err(ApiError::bad_request(ApiErrorCode::BadRequest, "invalid image url")),
                }
            },
        }
    }

    /// The error a failed image fetch is answered with; `None` when the
    /// image came back.
    pub fn image_fetch_error(fetch: ImageFetch) -> (r: Option<ApiError>)
        ensures
            r == match fetch {
                ImageFetch::Fetched => None,
                ImageFetch::ReadFailed => Some(
                    api_error(StatusCode::InternalServerError, ApiErrorCode::BadRequest, "failed to read image data"),
                ),
                ImageFetch::BadStatus => Some(
                    api_error(StatusCode::BadRequest, ApiErrorCode::BadRequest, "failed to request image url"),
                ),
                ImageFetch::RequestFailed => Some(
                    api_error(StatusCode::InternalServerError, ApiErrorCode::BadRequest, "failed to request image url"),
                ),
            },
    {
        match fetch {
            ImageFetch::Fetched => None,
            ImageFetch::ReadFailed => Some(
                ApiError::internal_server_error(ApiErrorCode::BadRequest, "failed to read image data"),
            ),
            ImageFetch::BadStatus => Some(ApiError::bad_request(ApiErrorCode::BadRequest, "failed to request image url")),
            ImageFetch::RequestFailed => Some(
                ApiError::internal_server_error(ApiErrorCode::BadRequest, "failed to request image url"),
            ),
        }
    }

    /// The pending image of an upload, from the image processor's answer
    /// (`None` when the request failed): the answer must carry no error and
    /// say where the image goes. The size is taken as a signed number.
    pub fn pending_image(response: Option<ProcessImageResponse>) -> (r: Result<PendingImage, ApiError>)
        ensures
            match response {
                Some(resp) => match resp.upload_info {
                    Some(info) => match info.path {
                        Some(path) => if resp.failed {
                            r == Err::<PendingImage, ApiError>(image_processor_error())
                        } else {
                            r matches Ok(p) && p.task_id@ == resp.id@ && p.path@ == path@ && p.mime@ == info.content_type@
                                && p.size == info.size as i64
                        },
                        None => r == Err::<PendingImage, ApiError>(image_processor_error()),
                    },
                    None => r == Err::<PendingImage, ApiError>(image_processor_error()),
                },
                None => r == Err::<PendingImage, ApiError>(image_processor_error()),
            },
    {
        let resp = match response {
            Some(resp) => resp,
            None => {
                return Err(ApiError::internal_server_error(ApiErrorCode::ImageProcessorError, "image processor error"));
            },
        };
        if resp.failed {
            return Err(ApiError::internal_server_error(ApiErrorCode::ImageProcessorError, "image processor error"));
        }
        match resp.upload_info {
            Some(info) => match info.path {
                Some(path) => Ok(PendingImage { task_id: resp.id, path, mime: info.content_type, size: info.size as i64 }),
                None => Err(ApiError::internal_server_error(ApiErrorCode::ImageProcessorError, "image processor error")),
            },
            None => Err(ApiError::internal_server_error(ApiErrorCode::ImageProcessorError, "image processor error")),
        }
    }

    /// The changes an update of a paint records: its name when the name
    /// changed, then its data when the data changed.
    pub fn paint_changes(before_name: &String, after_name: &String, data_changed: bool) -> (r: Vec<PaintChange>)
        ensures
            r@ == (if before_name@ != after_name@ { seq![PaintChange::Name] } else { Seq::empty() }) + (if data_changed {
                seq![PaintChange::Data]
            } else {
                Seq::empty()
            }),
    {
        let mut r: Vec<PaintChange> = Vec::new();
        let same: bool = *before_name == *after_name;
        if !same {
            r.push(PaintChange::Name);
        }
        if data_changed {
            r.push(PaintChange::Data);
        }
        proof {
            if before_name@ != after_name@ {
                if data_changed {
                    assert(r@ =~= seq![PaintChange::Name] + seq![PaintChange::Data]);
                } else {
                    assert(r@ =~= seq![PaintChange::Name] + Seq::<PaintChange>::empty());
                }
            } else {
                if data_changed {
                    assert(r@ =~= Seq::<PaintChange>::empty() + seq![PaintChange::Data]);
                } else {
                    assert(r@ =~= Seq::<PaintChange>::empty() + Seq::<PaintChange>::empty());
                }
            }
        }
        r
    }
}

/// The queries on cosmetics.
#[derive(Clone, Copy, Debug, Default)]
pub struct CosmeticsQuery;

impl CosmeticsQuery {
    /// Which cosmetics a query loads: all of them when no list, or an empty
    /// one, is given, else those listed. `None` when the list is longer than
    /// the schema allows.
    pub fn lookup(list: Option<Vec<Id>>) -> (r: Option<CosmeticsLookup>)
        ensures
            match list {
                None => r matches Some(CosmeticsLookup::All),
                Some(l) => if l@.len() > MAX_COSMETICS_LIST {
                    r is None
                } else if l@.len() == 0 {
                    r matches Some(CosmeticsLookup::All)
                } else {
                    r matches Some(CosmeticsLookup::Ids(ids)) && ids@ == l@
                },
            },
    {
        match list {
            None => Some(CosmeticsLookup::All),
            Some(l) => {
                if l.len() > MAX_COSMETICS_LIST {
                    None
                } else if l.len() == 0 {
                    Some(CosmeticsLookup::All)
                } else {
                    Some(CosmeticsLookup::Ids(l))
                }
            },
        }
    }
}

} // verus!
