use vstd::prelude::*;

use crate::aci::{AciJson, AciJsonView};
use crate::util::{NameValue, NameValueView};

use super::response::{ok_with, Body, BodyView, ContentType, Response};

verus! {

/// What the metadata service knows of one app of a pod.
pub struct AppMetadata {
    annotations: Vec<NameValue>,
    manifest: Option<AciJson>,
    id: String,
}

pub struct AppMetadataView {
    pub annotations: Seq<NameValueView>,
    pub manifest: Option<AciJsonView>,
    pub id: Seq<char>,
}

impl DeepView for AppMetadata {
    type V = AppMetadataView;

    closed spec fn deep_view(&self) -> AppMetadataView {
        AppMetadataView {
            annotations: self.annotations.deep_view(),
            manifest: self.manifest.deep_view(),
            id: self.id@,
        }
    }
}

impl AppMetadata {
    pub fn new(annotations: Vec<NameValue>, manifest: Option<AciJson>, id: String) -> (r: AppMetadata)
        ensures
            r.deep_view() == (AppMetadataView {
                annotations: annotations.deep_view(),
                manifest: manifest.deep_view(),
                id: id@,
            }),
    {
        AppMetadata { annotations, manifest, id }
    }

    /// The app's annotations.
    pub fn annotations(&self) -> (r: &Vec<NameValue>)
        ensures
            r.deep_view() == self.deep_view().annotations,
    {
        &self.annotations
    }

    /// The app's image manifest, if known.
    pub fn manifest(&self) -> (r: &Option<AciJson>)
        ensures
            r.deep_view() == self.deep_view().manifest,
    {
        &self.manifest
    }

    /// The id of the app's image.
    pub fn id(&self) -> (r: &String)
        ensures
            r@ == self.deep_view().id,
    {
        &self.id
    }

    /// The app's annotations, as JSON.
    pub fn serve_annotations(&self) -> (r: Response)
        ensures
            r.deep_view() == ok_with(ContentType::Json, BodyView::Annotations(self.deep_view().annotations)),
    {
        Response::ok_with(ContentType::Json, Body::Annotations(&self.annotations))
    }

    /// The app's image manifest, as JSON (`null` when unknown).
    pub fn serve_manifest(&self) -> (r: Response)
        ensures
            r.deep_view() == ok_with(ContentType::Json, BodyView::AppManifest(self.deep_view().manifest)),
    {
        Response::ok_with(ContentType::Json, Body::AppManifest(&self.manifest))
    }

    /// The id of the app's image, as text.
    pub fn serve_id(&self) -> (r: Response)
        ensures
            r.deep_view() == ok_with(ContentType::TextPlain, BodyView::Text(self.deep_view().id)),
    {
        Response::ok_with(ContentType::TextPlain, Body::Text(self.id.clone()))
    }
}

} // verus!
