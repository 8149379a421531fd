use vstd::prelude::*;
use crate::command::{stderr_text, CommandOutcome};
use crate::text::{chars_of, decimal, owned, push_decimal, trim_chars, trimmed};
use crate::types::UiEvent;

verus! {

/// What a run of `tesseract` yields: the recognised text, or why there is none.
pub open spec fn ocr_result_spec(outcome: CommandOutcome) -> Result<Seq<char>, Seq<char>> {
    match outcome {
        CommandOutcome::NotStarted(err) => Err("failed to run tesseract: "@ + err@),
        CommandOutcome::Exited { success, status, stdout, stderr } => if success {
            Ok(stdout@)
        } else {
            Err("tesseract failed: "@ + stderr_text(stderr@, status@))
        },
    }
}

/// The recognised text from the outcome of running `tesseract` on an image, or an error.
pub fn ocr_result(outcome: CommandOutcome) -> (r: Result<String, String>)
    ensures
        match ocr_result_spec(outcome) {
            Ok(text) => r is Ok && r->Ok_0@ == text,
            Err(msg) => r is Err && r->Err_0@ == msg,
        },
{
    match outcome {
        CommandOutcome::NotStarted(err) => {
            let mut msg = owned("failed to run tesseract: ");
            msg.append(err.as_str());
            Err(msg)
        },
        CommandOutcome::Exited { success, status, stdout, stderr } => if success {
            Ok(stdout)
        } else {
            let mut msg = owned("tesseract failed: ");
            let summary = crate::command::command_stderr(stderr.as_str(), status.as_str());
            msg.append(summary.as_str());
            Err(msg)
        },
    }
}

/// `Inserted <count> OCR characters.`
pub open spec fn inserted_message(count: nat) -> Seq<char> {
    "Inserted "@ + decimal(count) + " OCR characters."@
}

/// The status shown where the image held no text.
pub open spec fn no_text_message() -> Seq<char> {
    "No text found in clipboard image."@
}

/// The event that reports the end of text recognition: the recognised text where it is
/// not blank, with a count of its characters; a notice where it is blank; the error
/// otherwise.
pub fn ocr_finished_event(result: Result<String, String>) -> (event: UiEvent)
    ensures
        event matches UiEvent::OcrFinished { status, text } && match result {
            Ok(t) => if trimmed(t@).len() == 0 {
                status@ == no_text_message() && text is None
            } else {
                status@ == inserted_message(t@.len()) && text == Some(t)
            },
            Err(msg) => status@ == msg@ && text is None,
        },
{
    match result {
        Ok(text) => {
            let chars = chars_of(text.as_str());
            let t = trim_chars(&chars);
            if t.len() == 0 {
                UiEvent::OcrFinished { status: owned("No text found in clipboard image."), text: None }
            } else {
                let mut status = owned("Inserted ");
                push_decimal(&mut status, chars.len() as u128);
                status.append(" OCR characters.");
                assert(status@ =~= inserted_message(text@.len()));
                UiEvent::OcrFinished { status, text: Some(text) }
            }
        },
        Err(message) => UiEvent::OcrFinished { status: message, text: None },
    }
}

/// `jumpbox-typer-ocr-<pid>-<millis>.png`
pub open spec fn ocr_image_name_spec(pid: u32, millis: u128) -> Seq<char> {
    "jumpbox-typer-ocr-"@ + decimal(pid as nat) + "-"@ + decimal(millis as nat) + ".png"@
}

/// The file name for a clipboard image saved for recognition, from the process id and
/// the time in milliseconds since the Unix epoch.
pub fn ocr_image_file_name(pid: u32, millis: u128) -> (r: String)
    ensures
        r@ == ocr_image_name_spec(pid, millis),
{
    let mut name = owned("jumpbox-typer-ocr-");
    push_decimal(&mut name, pid as u128);
    name.append("-");
    push_decimal(&mut name, millis);
    name.append(".png");
    assert(name@ =~= ocr_image_name_spec(pid, millis));
    name
}

/// A `tesseract` run that exited successfully yields exactly what it wrote to standard
/// output, whatever it wrote to standard error; any other run yields an error.
pub proof fn lemma_ocr_success_is_stdout(outcome: CommandOutcome)
    ensures
        outcome matches CommandOutcome::Exited { success: true, stdout, .. } ==> ocr_result_spec(
            outcome,
        ) == Ok::<Seq<char>, Seq<char>>(stdout@),
        !(outcome matches CommandOutcome::Exited { success: true, .. }) ==> ocr_result_spec(
            outcome,
        ) is Err,
{
}

} // verus!
