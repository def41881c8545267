//! How the external worker is called: the arguments of each of its verbs,
//! and the credential that goes with every call.

use vstd::prelude::*;

verus! {

/// The verb that analyzes a template.
pub const ANALYZE_TEMPLATE: &'static str = "analyze-template";

/// The verb that solves a test.
pub const SOLVE: &'static str = "solve";

/// The option that gives the questions of a solve, as JSON.
pub const QUESTIONS: &'static str = "--questions";

/// The verb that exports a test.
pub const EXPORT: &'static str = "export";

/// The option that gives the images of an export.
pub const IMAGES: &'static str = "--images";

/// The option that gives the template of an export.
pub const TEMPLATE: &'static str = "--template";

/// The option that gives the margins of an export, as JSON.
pub const MARGINS: &'static str = "--margins";

/// The key of the setting that holds the worker's credential.
pub const CREDENTIAL_SETTING: &'static str = "gemini_api_key";

/// The name of the environment variable in which the worker finds its
/// credential. The credential is handed over there and nowhere else: it
/// is not among the arguments of any call.
pub const CREDENTIAL_VARIABLE: &'static str = "GEMINI_API_KEY";

/// The credential to pass on: the stored one, or the empty text.
pub open spec fn credential_text(stored: Option<Seq<char>>) -> Seq<char> {
    match stored {
        Some(c) => c,
        None => Seq::empty(),
    }
}

/// To analyze a document the worker gets its path and nothing else.
pub open spec fn analyze_document_arguments(path: Seq<char>) -> Seq<Seq<char>> {
    seq![path]
}

/// To analyze a template the worker gets the verb and the path.
pub open spec fn analyze_template_arguments(path: Seq<char>) -> Seq<Seq<char>> {
    seq![ANALYZE_TEMPLATE@, path]
}

/// To solve a test the worker gets the verb and the questions as JSON.
pub open spec fn solve_arguments(questions_json: Seq<char>) -> Seq<Seq<char>> {
    seq![SOLVE@, QUESTIONS@, questions_json]
}

/// The part of an export's arguments that names the template, if any.
pub open spec fn template_arguments(template_path: Option<Seq<char>>) -> Seq<Seq<char>> {
    match template_path {
        Some(p) => seq![TEMPLATE@, p],
        None => Seq::empty(),
    }
}

/// The part of an export's arguments that gives the margins, if any.
pub open spec fn margins_arguments(margins: Option<Seq<char>>) -> Seq<Seq<char>> {
    match margins {
        Some(m) => seq![MARGINS@, m],
        None => Seq::empty(),
    }
}

/// To export a test the worker gets the verb, the output path, every
/// image in order, and then the template and the margins where given.
pub open spec fn export_arguments(
    output_path: Seq<char>,
    image_paths: Seq<Seq<char>>,
    template_path: Option<Seq<char>>,
    margins: Option<Seq<char>>,
) -> Seq<Seq<char>> {
    seq![EXPORT@, output_path, IMAGES@] + image_paths + template_arguments(template_path)
        + margins_arguments(margins)
}

/// Builds [`credential_text`].
pub fn credential(stored: Option<String>) -> (c: String)
    ensures
        c@ == credential_text(stored.deep_view()),
{
    match stored {
        Some(c) => c,
        None => String::new(),
    }
}

/// Builds [`analyze_document_arguments`].
pub fn analyze_document(path: &str) -> (args: Vec<String>)
    ensures
        args.deep_view() == analyze_document_arguments(path@),
{
    let mut args: Vec<String> = Vec::new();
    args.push(String::from_str(path));
    assert(args.deep_view() =~= analyze_document_arguments(path@));
    args
}

/// Builds [`analyze_template_arguments`].
pub fn analyze_template(path: &str) -> (args: Vec<String>)
    ensures
        args.deep_view() == analyze_template_arguments(path@),
{
    let mut args: Vec<String> = Vec::new();
    args.push(String::from_str(ANALYZE_TEMPLATE));
    args.push(String::from_str(path));
    assert(args.deep_view() =~= analyze_template_arguments(path@));
    args
}

/// Builds [`solve_arguments`].
pub fn solve(questions_json: &str) -> (args: Vec<String>)
    ensures
        args.deep_view() == solve_arguments(questions_json@),
{
    let mut args: Vec<String> = Vec::new();
    args.push(String::from_str(SOLVE));
    args.push(String::from_str(QUESTIONS));
    args.push(String::from_str(questions_json));
    assert(args.deep_view() =~= solve_arguments(questions_json@));
    args
}

/// Builds [`export_arguments`].
pub fn export(
    output_path: &str,
    image_paths: &Vec<String>,
    template_path: &Option<String>,
    margins: &Option<String>,
) -> (args: Vec<String>)
    ensures
        args.deep_view() == export_arguments(
            output_path@,
            image_paths.deep_view(),
            template_path.deep_view(),
            margins.deep_view(),
        ),
{
    let mut args: Vec<String> = Vec::new();
    args.push(String::from_str(EXPORT));
    args.push(String::from_str(output_path));
    args.push(String::from_str(IMAGES));
    let ghost head = seq![EXPORT@, output_path@, IMAGES@];
    assert(args.deep_view() =~= head + image_paths.deep_view().take(0));
    let mut i: usize = 0;
    while i < image_paths.len()
        invariant
            i <= image_paths.len(),
            args.deep_view() == head + image_paths.deep_view().take(i as int),
        decreases image_paths.len() - i,
    {
        let ghost before = args.deep_view();
        args.push(image_paths[i].clone());
        assert(args.deep_view() =~= before.push(image_paths[i as int]@));
        assert(image_paths.deep_view().take(i as int + 1) =~= image_paths.deep_view().take(
            i as int,
        ).push(image_paths[i as int]@));
        i += 1;
    }
    assert(image_paths.deep_view().take(i as int) =~= image_paths.deep_view());
    let ghost with_images = args.deep_view();
    match template_path {
        Some(p) => {
            args.push(String::from_str(TEMPLATE));
            args.push(p.clone());
        },
        None => {},
    }
    assert(args.deep_view() =~= with_images + template_arguments(template_path.deep_view()));
    let ghost with_template = args.deep_view();
    match margins {
        Some(m) => {
            args.push(String::from_str(MARGINS));
            args.push(m.clone());
        },
        None => {},
    }
    assert(args.deep_view() =~= with_template + margins_arguments(margins.deep_view()));
    args
}

} // verus!
