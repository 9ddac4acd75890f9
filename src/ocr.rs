use vstd::prelude::*;
use windows::Graphics::Imaging::SoftwareBitmap;
use windows::Media::Ocr::OcrEngine;
use crate::error::{fail, RuntimeError, Step};
use crate::platform::{create_language, create_ocr_engine, recognize_bitmap, result_lines};
use crate::report::{recognition_report, recognition_text};

verus! {

/// A text recognizer for the language with BCP-47 tag `language_tag`.
pub fn ocr_engine(language_tag: &str) -> (r: Result<OcrEngine, RuntimeError>)
    ensures
        r matches Err(e) ==> e.step == Step::CreateLanguage || e.step == Step::CreateEngine,
{
    let language = match create_language(language_tag) {
        Ok(l) => l,
        Err(e) => return fail(Step::CreateLanguage, e),
    };
    match create_ocr_engine(&language) {
        Ok(engine) => Ok(engine),
        Err(e) => fail(Step::CreateEngine, e),
    }
}

/// The report on the text that `engine` recognizes in `bitmap`: the number of
/// lines, then each line.
pub fn recognize_page(engine: &OcrEngine, bitmap: &SoftwareBitmap) -> (r: Result<
    String,
    RuntimeError,
>)
    ensures
        r matches Ok(t) ==> exists|lines: Seq<String>| t@ == #[trigger] recognition_text(lines),
        r matches Err(e) ==> e.step == Step::Recognize,
{
    let result = match recognize_bitmap(engine, bitmap) {
        Ok(res) => res,
        Err(e) => return fail(Step::Recognize, e),
    };
    let lines = match result_lines(&result) {
        Ok(l) => l,
        Err(e) => return fail(Step::Recognize, e),
    };
    let t = recognition_report(&lines);
    assert(t@ == recognition_text(lines@));
    Ok(t)
}

} // verus!
