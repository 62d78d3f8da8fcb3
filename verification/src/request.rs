//! Generation requests: one per generated file, each naming the headers to
//! parse, which kind of declaration to keep, and the name patterns that a
//! kept symbol has to match. The requests of a run are data, drawn up before
//! anything is executed.

use vstd::prelude::*;
use vstd::string::*;

verus! {

/// A header of a library, named by the library's directory and by the path
/// under which C code would name the header.
#[derive(Clone, Debug)]
pub struct Header {
    pub library: String,
    pub fragment: String,
}

/// A `Header` as a mathematical value.
pub struct HeaderView {
    pub library: Seq<char>,
    pub fragment: Seq<char>,
}

impl View for Header {
    type V = HeaderView;

    open spec fn view(&self) -> HeaderView {
        HeaderView { library: self.library@, fragment: self.fragment@ }
    }
}

/// What a request keeps of the parsed headers, with the name patterns that
/// apply.
#[derive(Clone, Debug)]
pub enum Pass {
    /// Types and variables, no functions.
    Declarations { variables: String, types: String },
    /// Functions only.
    Functions { functions: String },
}

/// A `Pass` as a mathematical value.
pub enum PassView {
    Declarations { variables: Seq<char>, types: Seq<char> },
    Functions { functions: Seq<char> },
}

impl View for Pass {
    type V = PassView;

    open spec fn view(&self) -> PassView {
        match self {
            Pass::Declarations { variables, types } => PassView::Declarations {
                variables: variables@,
                types: types@,
            },
            Pass::Functions { functions } => PassView::Functions { functions: functions@ },
        }
    }
}

/// The unit of work: one generated file.
#[derive(Clone, Debug)]
pub struct GenerationRequest {
    /// Name of the generated file inside the output directory.
    pub output_file: String,
    /// The headers to parse, in order.
    pub headers: Vec<Header>,
    /// Text that the generated file begins with; empty for none.
    pub prefix: String,
    /// What to keep.
    pub pass: Pass,
    /// Whether symbols that a kept symbol refers to are kept as well, though
    /// no pattern matches them.
    pub recursive: bool,
}

/// A `GenerationRequest` as a mathematical value.
pub struct RequestView {
    pub output_file: Seq<char>,
    pub headers: Seq<HeaderView>,
    pub prefix: Seq<char>,
    pub pass: PassView,
    pub recursive: bool,
}

/// The headers of a vector as mathematical values.
pub open spec fn header_views(headers: Seq<Header>) -> Seq<HeaderView> {
    headers.map_values(|header: Header| header@)
}

impl View for GenerationRequest {
    type V = RequestView;

    open spec fn view(&self) -> RequestView {
        RequestView {
            output_file: self.output_file@,
            headers: header_views(self.headers@),
            prefix: self.prefix@,
            pass: self.pass@,
            recursive: self.recursive,
        }
    }
}

/// The requests of a vector as mathematical values.
pub open spec fn request_views(requests: Seq<GenerationRequest>) -> Seq<RequestView> {
    requests.map_values(|request: GenerationRequest| request@)
}

/// Whether a pattern begins with the anchor for the start of a name and ends
/// with the anchor for its end.
pub open spec fn anchored(pattern: Seq<char>) -> bool {
    pattern.len() >= 2 && pattern[0] == '^' && pattern.last() == '$'
}

impl PassView {
    /// The patterns of the pass, variables and types before functions.
    pub open spec fn patterns(self) -> Seq<Seq<char>> {
        match self {
            PassView::Declarations { variables, types } => seq![variables, types],
            PassView::Functions { functions } => seq![functions],
        }
    }
}

impl RequestView {
    /// Whether every pattern of the request is anchored at both ends.
    pub open spec fn filters_anchored(self) -> bool {
        forall|i: int|
            0 <= i < self.pass.patterns().len() ==> anchored(#[trigger] self.pass.patterns()[i])
    }
}

/// The header `fragment` of the library in `library`.
pub fn header(library: &str, fragment: &str) -> (header: Header)
    ensures
        header@ == (HeaderView { library: library@, fragment: fragment@ }),
{
    Header { library: String::from_str(library), fragment: String::from_str(fragment) }
}

/// The headers of the core library, in the order in which they are parsed.
pub open spec fn xlib_header_views() -> Seq<HeaderView> {
    seq![
        HeaderView { library: "libx11"@, fragment: "X11/Xlib.h"@ },
        HeaderView { library: "libx11"@, fragment: "X11/cursorfont.h"@ },
        HeaderView { library: "libx11"@, fragment: "X11/ImUtil.h"@ },
        HeaderView { library: "libx11"@, fragment: "X11/Xcms.h"@ },
        HeaderView { library: "libx11"@, fragment: "X11/XKBlib.h"@ },
        HeaderView { library: "libx11"@, fragment: "X11/Xregion.h"@ },
        HeaderView { library: "libx11"@, fragment: "X11/Xresource.h"@ },
        HeaderView { library: "libx11"@, fragment: "X11/Xutil.h"@ },
    ]
}

/// The headers of the fixes extension.
pub open spec fn xfixes_header_views() -> Seq<HeaderView> {
    seq![HeaderView { library: "libxfixes"@, fragment: "X11/extensions/Xfixes.h"@ }]
}

/// The four requests of a run, in the order in which they are carried out:
/// declarations and functions of the core library, then declarations and
/// functions of the fixes extension.
pub open spec fn standard_requests() -> Seq<RequestView> {
    seq![
        RequestView {
            output_file: "xlib.rs"@,
            headers: xlib_header_views(),
            prefix: ""@,
            pass: PassView::Declarations {
                variables: "^([A-Z]|_Xrm)[A-Za-z]*$"@,
                types: "^([A-Z]|_Xrm)[A-Za-z]*$"@,
            },
            recursive: true,
        },
        RequestView {
            output_file: "xlib_functions.rs"@,
            headers: xlib_header_views(),
            prefix: "use crate::generated_bindings::xlib::*;\n"@,
            pass: PassView::Functions { functions: "^X[A-Za-z]*$"@ },
            recursive: true,
        },
        RequestView {
            output_file: "xfixes.rs"@,
            headers: xfixes_header_views(),
            prefix: "use crate::generated_bindings::xlib::*;\n"@,
            pass: PassView::Declarations {
                variables: "^XFixes[A-Za-z]*$|^XserverRegion$|^PointerBarrier$"@,
                types: "^XFixes[A-Za-z]*$|^XserverRegion$|^PointerBarrier$"@,
            },
            recursive: false,
        },
        RequestView {
            output_file: "xfixes_functions.rs"@,
            headers: xfixes_header_views(),
            prefix: "use crate::generated_bindings::{xlib::*, xfixes::*};\n"@,
            pass: PassView::Functions { functions: "^XFixes[A-Za-z]*$"@ },
            recursive: false,
        },
    ]
}

/// Builds the header list of the core library.
pub fn xlib_headers() -> (headers: Vec<Header>)
    ensures
        header_views(headers@) == xlib_header_views(),
{
    let mut headers: Vec<Header> = Vec::new();
    headers.push(header("libx11", "X11/Xlib.h"));
    headers.push(header("libx11", "X11/cursorfont.h"));
    headers.push(header("libx11", "X11/ImUtil.h"));
    headers.push(header("libx11", "X11/Xcms.h"));
    headers.push(header("libx11", "X11/XKBlib.h"));
    headers.push(header("libx11", "X11/Xregion.h"));
    headers.push(header("libx11", "X11/Xresource.h"));
    headers.push(header("libx11", "X11/Xutil.h"));
    assert(header_views(headers@) =~= xlib_header_views());
    headers
}

/// Builds the header list of the fixes extension.
pub fn xfixes_headers() -> (headers: Vec<Header>)
    ensures
        header_views(headers@) == xfixes_header_views(),
{
    let mut headers: Vec<Header> = Vec::new();
    headers.push(header("libxfixes", "X11/extensions/Xfixes.h"));
    assert(header_views(headers@) =~= xfixes_header_views());
    headers
}

/// Draws up the requests of a run.
pub fn generation_requests() -> (requests: Vec<GenerationRequest>)
    ensures
        request_views(requests@) == standard_requests(),
{
    let mut requests: Vec<GenerationRequest> = Vec::new();
    requests.push(
        GenerationRequest {
            output_file: String::from_str("xlib.rs"),
            headers: xlib_headers(),
            prefix: String::from_str(""),
            pass: Pass::Declarations {
                variables: String::from_str("^([A-Z]|_Xrm)[A-Za-z]*$"),
                types: String::from_str("^([A-Z]|_Xrm)[A-Za-z]*$"),
            },
            recursive: true,
        },
    );
    requests.push(
        GenerationRequest {
            output_file: String::from_str("xlib_functions.rs"),
            headers: xlib_headers(),
            prefix: String::from_str("use crate::generated_bindings::xlib::*;\n"),
            pass: Pass::Functions { functions: String::from_str("^X[A-Za-z]*$") },
            recursive: true,
        },
    );
    requests.push(
        GenerationRequest {
            output_file: String::from_str("xfixes.rs"),
            headers: xfixes_headers(),
            prefix: String::from_str("use crate::generated_bindings::xlib::*;\n"),
            pass: Pass::Declarations {
                variables: String::from_str(
                    "^XFixes[A-Za-z]*$|^XserverRegion$|^PointerBarrier$",
                ),
                types: String::from_str("^XFixes[A-Za-z]*$|^XserverRegion$|^PointerBarrier$"),
            },
            recursive: false,
        },
    );
    requests.push(
        GenerationRequest {
            output_file: String::from_str("xfixes_functions.rs"),
            headers: xfixes_headers(),
            prefix: String::from_str("use crate::generated_bindings::{xlib::*, xfixes::*};\n"),
            pass: Pass::Functions { functions: String::from_str("^XFixes[A-Za-z]*$") },
            recursive: false,
        },
    );
    assert(request_views(requests@) =~= standard_requests());
    requests
}

/// No two requests of a run write the same file.
pub proof fn lemma_outputs_are_distinct(i: int, j: int)
    requires
        0 <= i < j < standard_requests().len(),
    ensures
        standard_requests()[i].output_file != standard_requests()[j].output_file,
{
    reveal_strlit("xlib.rs");
    reveal_strlit("xlib_functions.rs");
    reveal_strlit("xfixes.rs");
    reveal_strlit("xfixes_functions.rs");
    assert("xlib.rs"@.len() == 7);
    assert("xlib_functions.rs"@.len() == 17);
    assert("xfixes.rs"@.len() == 9);
    assert("xfixes_functions.rs"@.len() == 19);
}

/// Every name pattern of a run is anchored at both ends.
pub proof fn lemma_filters_are_anchored(i: int)
    requires
        0 <= i < standard_requests().len(),
    ensures
        standard_requests()[i].filters_anchored(),
{
    reveal_strlit("^([A-Z]|_Xrm)[A-Za-z]*$");
    reveal_strlit("^X[A-Za-z]*$");
    reveal_strlit("^XFixes[A-Za-z]*$|^XserverRegion$|^PointerBarrier$");
    reveal_strlit("^XFixes[A-Za-z]*$");
}

} // verus!
