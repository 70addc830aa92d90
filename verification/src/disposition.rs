use vstd::prelude::*;

verus! {

/// What a part's content disposition says of the part, as far as decoding
/// reads it.
#[derive(Debug)]
pub struct Disposition {
    /// Whether the disposition is of the kind `form-data`.
    pub form_data: bool,
    /// The `name` parameter.
    pub name: Option<String>,
    /// The `filename` parameter.
    pub filename: Option<String>,
}

/// A disposition as a mathematical value.
pub struct DispositionView {
    pub form_data: bool,
    pub name: Option<Seq<char>>,
    pub filename: Option<Seq<char>>,
}

/// View of an optional string.
pub open spec fn text_of(s: Option<String>) -> Option<Seq<char>> {
    match s {
        Some(t) => Some(t@),
        None => None,
    }
}

impl View for Disposition {
    type V = DispositionView;

    open spec fn view(&self) -> DispositionView {
        DispositionView {
            form_data: self.form_data,
            name: text_of(self.name),
            filename: text_of(self.filename),
        }
    }
}

impl Clone for Disposition {
    fn clone(&self) -> (r: Disposition)
        ensures
            r == *self,
    {
        let name = match &self.name {
            Some(n) => Some(n.clone()),
            None => None,
        };
        let filename = match &self.filename {
            Some(f) => Some(f.clone()),
            None => None,
        };
        Disposition { form_data: self.form_data, name, filename }
    }
}

/// Where a leaf part goes.
#[derive(Debug)]
pub enum Route {
    /// The part is no form data: decoding stops.
    Reject,
    /// The part has no name: it is passed over.
    Skip,
    /// The part is gathered in memory.
    Data { name: String },
    /// The part is written to temporary storage.
    File { name: String, filename: String },
}

/// A route as a mathematical value.
pub enum RouteView {
    Reject,
    Skip,
    Data { name: Seq<char> },
    File { name: Seq<char>, filename: Seq<char> },
}

impl View for Route {
    type V = RouteView;

    open spec fn view(&self) -> RouteView {
        match *self {
            Route::Reject => RouteView::Reject,
            Route::Skip => RouteView::Skip,
            Route::Data { name } => RouteView::Data { name: name@ },
            Route::File { name, filename } => RouteView::File { name: name@, filename: filename@ },
        }
    }
}

/// The route of a part with the given disposition. The kind is looked at
/// first, then the name; the file name alone tells a file from plain data.
pub open spec fn route_of(d: Option<DispositionView>) -> RouteView {
    match d {
        None => RouteView::Reject,
        Some(d) => if !d.form_data {
            RouteView::Reject
        } else {
            match (d.name, d.filename) {
                (None, _) => RouteView::Skip,
                (Some(name), None) => RouteView::Data { name },
                (Some(name), Some(filename)) => RouteView::File { name, filename },
            }
        },
    }
}

/// View of an optional disposition.
pub open spec fn disposition_view(d: Option<Disposition>) -> Option<DispositionView> {
    match d {
        Some(d) => Some(d@),
        None => None,
    }
}

/// Decides where a leaf part goes from its disposition alone.
pub fn classify(disposition: &Option<Disposition>) -> (r: Route)
    ensures
        r@ == route_of(disposition_view(*disposition)),
{
    match disposition {
        None => Route::Reject,
        Some(d) => {
            if !d.form_data {
                return Route::Reject;
            }
            match &d.name {
                None => Route::Skip,
                Some(name) => match &d.filename {
                    None => Route::Data { name: name.clone() },
                    Some(filename) => Route::File {
                        name: name.clone(),
                        filename: filename.clone(),
                    },
                },
            }
        },
    }
}

} // verus!
