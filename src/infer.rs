//! A sample model handler: its input schema and its outputs.

use vstd::prelude::*;

verus! {

#[derive(Debug, Clone, PartialEq, Eq)]
pub struct ModelInputs {
    pub prompt: String,
}

#[derive(Debug, Clone, PartialEq, Eq)]
pub struct ValidationResult {
    pub prompt: Validation,
}

/// How one input field is checked: its type name and whether it must be given.
#[derive(Debug, Clone, PartialEq, Eq)]
pub struct Validation {
    pub input_type: String,
    pub required: bool,
}

/// One generated output: the image's path and the seed used.
#[derive(Debug, Clone, PartialEq, Eq)]
pub struct Output {
    pub image: String,
    pub seed: String,
}

/// The schema of the model's input: a required `prompt` of type `String`.
pub fn validator() -> (r: ValidationResult)
    ensures
        r.prompt.input_type@ == "String"@,
        r.prompt.required,
{
    ValidationResult {
        prompt: Validation { input_type: String::from_str("String"), required: true },
    }
}

/// Runs the sample model: one image at a fixed path, with seed `1234`.
pub fn run(model_inputs: ModelInputs) -> (r: Result<Vec<Output>, Vec<String>>)
    ensures
        r is Ok,
        r.unwrap()@.len() == 1,
        r.unwrap()@[0].image@ == "/path/to/image.png"@,
        r.unwrap()@[0].seed@ == "1234"@,
{
    let out = Output {
        image: String::from_str("/path/to/image.png"),
        seed: String::from_str("1234"),
    };
    Ok(vec![out])
}

} // verus!
