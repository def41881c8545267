//! What the solver is given: each member question reduced to what the
//! solver needs, and the set rendered as one JSON array.

use crate::question::{Question, QuestionView};
use vstd::prelude::*;

verus! {

/// The decimal digits, in order.
pub const DIGITS: &'static str = "0123456789";

/// The sign of a negative number.
pub const MINUS: &'static str = "-";

/// Opens an object, up to the value of its id.
pub const OPEN_OBJECT: &'static str = "{\"id\":";

/// Follows the id, up to the value of the text.
pub const TEXT_MEMBER: &'static str = ",\"text\":";

/// Follows the text where there is an image path, up to its value.
pub const IMAGE_MEMBER: &'static str = ",\"image_path\":";

/// Closes an object.
pub const CLOSE_OBJECT: &'static str = "}";

/// Opens an array.
pub const OPEN_ARRAY: &'static str = "[";

/// Separates the items of an array.
pub const COMMA: &'static str = ",";

/// Closes an array.
pub const CLOSE_ARRAY: &'static str = "]";

/// A question as the solver sees it. An image reference is present only
/// where the question has one.
#[derive(Debug, Clone, PartialEq, Eq)]
pub struct SolverInput {
    pub id: i32,
    pub text: String,
    pub image_path: Option<String>,
}

/// The mathematical value of a [`SolverInput`].
pub struct SolverInputView {
    pub id: i32,
    pub text: Seq<char>,
    pub image_path: Option<Seq<char>>,
}

impl DeepView for SolverInput {
    type V = SolverInputView;

    open spec fn deep_view(&self) -> SolverInputView {
        SolverInputView {
            id: self.id,
            text: self.text@,
            image_path: self.image_path.deep_view(),
        }
    }
}

impl View for SolverInput {
    type V = SolverInputView;

    open spec fn view(&self) -> SolverInputView {
        self.deep_view()
    }
}

/// The solver's view of a question: its id (0 for a question that has
/// none), its text, and its image path unless that is empty.
pub open spec fn solver_input_of(q: QuestionView) -> SolverInputView {
    SolverInputView {
        id: match q.id {
            Some(id) => id,
            None => 0,
        },
        text: q.text,
        image_path: if q.image_path.len() == 0 {
            None
        } else {
            Some(q.image_path)
        },
    }
}

/// The solver's view of each question, in order.
pub open spec fn solver_inputs_of(members: Seq<QuestionView>) -> Seq<SolverInputView> {
    Seq::new(members.len(), |i: int| solver_input_of(members[i]))
}

/// One decimal digit.
pub open spec fn digit_text(d: int) -> Seq<char> {
    DIGITS@.subrange(d, d + 1)
}

/// A natural number in decimal, without leading zeros.
pub open spec fn natural_text(n: nat) -> Seq<char>
    decreases n,
{
    if n < 10 {
        digit_text(n as int)
    } else {
        natural_text(n / 10) + digit_text((n % 10) as int)
    }
}

/// An integer in decimal: a minus sign before a negative one.
pub open spec fn integer_text(n: int) -> Seq<char> {
    if n < 0 {
        MINUS@ + natural_text((-n) as nat)
    } else {
        natural_text(n as nat)
    }
}

/// The member that carries the image path, where there is one. A question
/// without an image has no such member.
pub open spec fn image_member_text(image_json: Option<Seq<char>>) -> Seq<char> {
    match image_json {
        Some(j) => IMAGE_MEMBER@ + j,
        None => Seq::empty(),
    }
}

/// One question as a JSON object, given its text and its image path as
/// JSON strings.
pub open spec fn object_text(
    id: i32,
    text_json: Seq<char>,
    image_json: Option<Seq<char>>,
) -> Seq<char> {
    OPEN_OBJECT@ + integer_text(id as int) + TEXT_MEMBER@ + text_json
        + image_member_text(image_json) + CLOSE_OBJECT@
}

/// The items, separated by commas.
pub open spec fn comma_separated(items: Seq<Seq<char>>) -> Seq<char>
    decreases items.len(),
{
    if items.len() == 0 {
        Seq::empty()
    } else if items.len() == 1 {
        items[0]
    } else {
        comma_separated(items.drop_last()) + COMMA@ + items.last()
    }
}

/// The items as a JSON array.
pub open spec fn array_text(items: Seq<Seq<char>>) -> Seq<char> {
    OPEN_ARRAY@ + comma_separated(items) + CLOSE_ARRAY@
}

/// The JSON string that stands for a text, as `serde_json` writes it:
/// between double quotes, with the characters escaped that JSON does not
/// take as they are.
pub uninterp spec fn json_string_text(s: Seq<char>) -> Seq<char>;

/// The image path of a solver input as a JSON string, where it has one.
pub open spec fn image_json(input: SolverInputView) -> Option<Seq<char>> {
    match input.image_path {
        Some(path) => Some(json_string_text(path)),
        None => None,
    }
}

/// One solver input as a JSON object.
pub open spec fn input_json(input: SolverInputView) -> Seq<char> {
    object_text(input.id, json_string_text(input.text), image_json(input))
}

/// Every solver input as a JSON object, in order.
pub open spec fn inputs_json(inputs: Seq<SolverInputView>) -> Seq<Seq<char>> {
    Seq::new(inputs.len(), |i: int| input_json(inputs[i]))
}

/// The payload of a solve: the solver inputs as one JSON array.
pub open spec fn payload_text(inputs: Seq<SolverInputView>) -> Seq<char> {
    array_text(inputs_json(inputs))
}

/// Calls `serde_json::to_string` on a string slice. The call always
/// succeeds: of the two causes of failure that `serde_json` documents, a
/// `Serialize` impl that fails and a map with keys that are not strings,
/// neither can occur for a string, which is written into memory. The
/// text that comes back is a function of the text given alone; it is
/// named, not described.
#[verifier::external_body]
fn json_string(s: &str) -> (r: Option<String>)
    ensures
        r.deep_view() == Some(json_string_text(s@)),
{
    serde_json::to_string(s).ok()
}

/// Writes a text as a JSON string: [`json_string_text`].
pub fn json_text(s: &str) -> (text: String)
    ensures
        text@ == json_string_text(s@),
{
    json_string(s).unwrap()
}

impl SolverInput {
    /// Builds [`solver_input_of`].
    pub fn of_question(q: &Question) -> (input: SolverInput)
        ensures
            input@ == solver_input_of(q@),
    {
        SolverInput {
            id: match q.id {
                Some(id) => id,
                None => 0,
            },
            text: q.text.clone(),
            image_path: if q.image_path.as_str().is_empty() {
                None
            } else {
                Some(q.image_path.clone())
            },
        }
    }
}

/// Builds [`solver_inputs_of`].
pub fn solver_inputs(members: &Vec<Question>) -> (inputs: Vec<SolverInput>)
    ensures
        inputs.deep_view() == solver_inputs_of(members.deep_view()),
{
    let mut inputs: Vec<SolverInput> = Vec::new();
    let mut i: usize = 0;
    while i < members.len()
        invariant
            i <= members.len(),
            inputs.len() == i,
            forall|k: int|
                0 <= k < i ==> (#[trigger] inputs[k])@ == solver_input_of(members[k]@),
        decreases members.len() - i,
    {
        inputs.push(SolverInput::of_question(&members[i]));
        i += 1;
    }
    assert(inputs.deep_view() =~= solver_inputs_of(members.deep_view()));
    inputs
}

/// Appends a natural number in decimal.
fn push_natural(out: &mut String, n: u32)
    ensures
        final(out)@ == old(out)@ + natural_text(n as nat),
    decreases n,
{
    if n >= 10 {
        push_natural(out, n / 10);
    }
    let d: usize = (n % 10) as usize;
    proof {
        reveal_strlit("0123456789");
    }
    let digit = DIGITS.substring_ascii(d, d + 1);
    out.append(digit);
    assert(out@ =~= old(out)@ + natural_text(n as nat));
}

/// Renders [`integer_text`].
pub fn integer_to_text(n: i32) -> (text: String)
    ensures
        text@ == integer_text(n as int),
{
    if n < 0 {
        let mut text = String::from_str(MINUS);
        let magnitude: u32 = (-(n as i64)) as u32;
        push_natural(&mut text, magnitude);
        text
    } else {
        let mut text = String::new();
        push_natural(&mut text, n as u32);
        assert(text@ =~= natural_text(n as nat));
        text
    }
}

/// Builds [`object_text`] from an id and two JSON strings.
pub fn solver_object(id: i32, text_json: &str, image_json: &Option<String>) -> (object: String)
    ensures
        object@ == object_text(id, text_json@, image_json.deep_view()),
{
    let mut object = String::from_str(OPEN_OBJECT);
    object.append(integer_to_text(id).as_str());
    object.append(TEXT_MEMBER);
    object.append(text_json);
    match image_json {
        Some(j) => {
            object.append(IMAGE_MEMBER);
            object.append(j.as_str());
        },
        None => {},
    }
    assert(object@ =~= OPEN_OBJECT@ + integer_text(id as int) + TEXT_MEMBER@ + text_json@
        + image_member_text(image_json.deep_view()));
    object.append(CLOSE_OBJECT);
    object
}

/// Builds [`array_text`].
pub fn json_array(items: &Vec<String>) -> (text: String)
    ensures
        text@ == array_text(items.deep_view()),
{
    let mut text = String::from_str(OPEN_ARRAY);
    let mut i: usize = 0;
    assert(items.deep_view().take(0) =~= Seq::<Seq<char>>::empty());
    assert(text@ =~= OPEN_ARRAY@ + comma_separated(items.deep_view().take(0)));
    while i < items.len()
        invariant
            i <= items.len(),
            text@ == OPEN_ARRAY@ + comma_separated(items.deep_view().take(i as int)),
        decreases items.len() - i,
    {
        let ghost before = items.deep_view().take(i as int);
        let ghost after = items.deep_view().take(i as int + 1);
        assert(after.drop_last() =~= before);
        assert(after.last() == items[i as int]@);
        if i > 0 {
            text.append(COMMA);
        }
        text.append(items[i].as_str());
        assert(text@ =~= OPEN_ARRAY@ + comma_separated(after));
        i += 1;
    }
    assert(items.deep_view().take(i as int) =~= items.deep_view());
    text.append(CLOSE_ARRAY);
    text
}

/// Renders one solver input as a JSON object: [`input_json`].
pub fn solver_input_json(input: &SolverInput) -> (object: String)
    ensures
        object@ == input_json(input@),
{
    let text_json = json_text(input.text.as_str());
    let image_json = match &input.image_path {
        Some(path) => Some(json_text(path.as_str())),
        None => None,
    };
    solver_object(input.id, text_json.as_str(), &image_json)
}

/// Renders the payload of a solve: [`payload_text`].
pub fn solver_payload(inputs: &Vec<SolverInput>) -> (payload: String)
    ensures
        payload@ == payload_text(inputs.deep_view()),
{
    let mut objects: Vec<String> = Vec::new();
    let mut i: usize = 0;
    while i < inputs.len()
        invariant
            i <= inputs.len(),
            objects.len() == i,
            forall|k: int| 0 <= k < i ==> (#[trigger] objects[k])@ == input_json(inputs[k]@),
        decreases inputs.len() - i,
    {
        objects.push(solver_input_json(&inputs[i]));
        i += 1;
    }
    assert(objects.deep_view() =~= inputs_json(inputs.deep_view()));
    json_array(&objects)
}

} // verus!
