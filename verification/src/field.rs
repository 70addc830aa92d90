use vstd::prelude::*;
use actix_web::http::header::HeaderValue;
use actix_web::http::HeaderMap;
use bytes::Bytes;
use mime::Mime;
use crate::buffer::bytes_of;
use crate::disposition::{disposition_view, route_of, Disposition, DispositionView, RouteView};

verus! {

/// `http::header::HeaderValue`, as `actix_web` hands it on: the value type of
/// a part's header map, never looked into.
#[verifier::external_type_specification]
#[verifier::external_body]
pub struct ExHeaderValue(HeaderValue);

/// `http::HeaderMap`, as `actix_web` hands it on: the headers of a part,
/// carried from the part to its field and never looked into.
#[verifier::external_type_specification]
#[verifier::external_body]
#[verifier::reject_recursive_types(T)]
pub struct ExHeaderMap<T>(HeaderMap<T>);

/// `mime::Mime`: the content type of a part, carried from the part to its
/// field and never looked into.
#[verifier::external_type_specification]
#[verifier::external_body]
pub struct ExMime(Mime);

/// What a leaf part carries in front of its body.
#[derive(Debug)]
pub struct PartHead {
    pub headers: HeaderMap,
    pub content_type: Mime,
    pub content_disposition: Option<Disposition>,
}

/// A part's head as a mathematical value.
pub struct PartHeadView {
    pub headers: HeaderMap,
    pub content_type: Mime,
    pub content_disposition: Option<DispositionView>,
}

impl View for PartHead {
    type V = PartHeadView;

    open spec fn view(&self) -> PartHeadView {
        PartHeadView {
            headers: self.headers,
            content_type: self.content_type,
            content_disposition: disposition_view(self.content_disposition),
        }
    }
}

/// The body of a decoded field. `F` is the handle through which the content
/// of a file is read.
#[derive(Debug)]
pub enum FormData<F> {
    /// Form data without a file name.
    Data {
        /// The `name` parameter.
        name: String,
        /// The body.
        value: Bytes,
    },
    /// Form data with a file name.
    File {
        /// The `name` parameter.
        name: String,
        /// The `filename` parameter.
        filename: String,
        /// Temporary storage that holds the body, positioned at its start.
        file: F,
    },
}

/// A field's body as a mathematical value.
pub enum FormDataView<F> {
    Data { name: Seq<char>, value: Seq<u8> },
    File { name: Seq<char>, filename: Seq<char>, file: F },
}

impl<F> View for FormData<F> {
    type V = FormDataView<F>;

    open spec fn view(&self) -> FormDataView<F> {
        match *self {
            FormData::Data { name, value } => FormDataView::Data {
                name: name@,
                value: bytes_of(value),
            },
            FormData::File { name, filename, file } => FormDataView::File {
                name: name@,
                filename: filename@,
                file,
            },
        }
    }
}

impl<F> FormDataView<F> {
    /// The route that leads to a body of this shape.
    pub open spec fn route(self) -> RouteView {
        match self {
            FormDataView::Data { name, value } => RouteView::Data { name },
            FormDataView::File { name, filename, file } => RouteView::File { name, filename },
        }
    }
}

/// One decoded form field.
#[derive(Debug)]
pub struct Field<F> {
    pub headers: HeaderMap,
    pub content_type: Mime,
    pub content_disposition: Disposition,
    pub form_data: FormData<F>,
}

/// A field as a mathematical value.
pub struct FieldView<F> {
    pub headers: HeaderMap,
    pub content_type: Mime,
    pub content_disposition: DispositionView,
    pub form_data: FormDataView<F>,
}

impl<F> FieldView<F> {
    /// The body is of the shape that the disposition asks for: data where it
    /// names no file, a file where it does, under the names it gives.
    pub open spec fn well_formed(self) -> bool {
        route_of(Some(self.content_disposition)) == self.form_data.route()
    }
}

impl<F> View for Field<F> {
    type V = FieldView<F>;

    open spec fn view(&self) -> FieldView<F> {
        FieldView {
            headers: self.headers,
            content_type: self.content_type,
            content_disposition: self.content_disposition@,
            form_data: self.form_data@,
        }
    }
}

impl<F> Field<F> {
    /// The headers of the part that this field was decoded from.
    pub fn headers(&self) -> (r: &HeaderMap)
        ensures
            *r == self.headers,
    {
        &self.headers
    }

    /// The content type of the part.
    pub fn content_type(&self) -> (r: &Mime)
        ensures
            *r == self.content_type,
    {
        &self.content_type
    }

    /// The content disposition of the part. A decoded field always has one.
    pub fn content_disposition(&self) -> (r: Option<Disposition>)
        ensures
            r == Some(self.content_disposition),
    {
        Some(self.content_disposition.clone())
    }
}

} // verus!
