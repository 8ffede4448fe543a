//! From a recording to the text that is pasted.

use vstd::prelude::*;

use crate::settings::Settings;

verus! {

/// Whether there is something to transcribe in a recording of `samples` samples.
pub fn check_samples(samples: usize) -> (r: Result<(), String>)
    ensures
        samples > 0 ==> r is Ok,
        samples == 0 ==> (r matches Err(e) && e@ == "No audio recorded"@),
{
    if samples == 0 {
        Err("No audio recorded".to_string())
    } else {
        Ok(())
    }
}

/// A transcription that has words in it.
#[derive(Debug)]
pub struct Transcript {
    raw_text: String,
}

/// A transcription with its cleaned text.
#[derive(Debug)]
pub struct CleanedTranscript {
    raw_text: String,
    text: String,
}

/// What the history keeps of a recording.
#[derive(Debug)]
pub struct HistoryEntry {
    pub text: String,
    pub raw_text: String,
    pub transcribe_ms: u64,
    pub cleanup_ms: u64,
    pub stt_model: String,
    pub cleanup_model: String,
}

/// What is done with a text that is on the clipboard.
#[derive(Debug)]
pub struct Delivery {
    /// The entry for the history.
    pub entry: HistoryEntry,
    /// Whether the text is pasted at once.
    pub paste: bool,
    /// The text to report.
    pub text: String,
}

impl Transcript {
    /// What was transcribed.
    pub closed spec fn raw_text(&self) -> Seq<char> {
        self.raw_text@
    }

    /// Takes in what the transcriber came to: its own error, or an error if it
    /// heard nothing.
    pub fn new(result: Result<String, String>) -> (r: Result<Transcript, String>)
        ensures
            match result {
                Err(e) => r == Err::<Transcript, String>(e),
                Ok(text) => if text@.len() == 0 {
                    r matches Err(e) && e@ == "No speech detected"@
                } else {
                    r matches Ok(t) && t.raw_text() == text@
                },
            },
    {
        match result {
            Err(e) => Err(e),
            Ok(raw_text) => {
                if raw_text.as_str().is_empty() {
                    return Err("No speech detected".to_string());
                }
                Ok(Transcript { raw_text })
            },
        }
    }

    /// The text to be cleaned.
    pub fn as_str(&self) -> (r: &str)
        ensures
            r@ == self.raw_text(),
    {
        self.raw_text.as_str()
    }

    /// Takes in what the cleaner came to. The transcription itself stands in where
    /// it failed.
    pub fn cleaned(self, result: Result<String, String>) -> (r: CleanedTranscript)
        ensures
            r.raw_text() == self.raw_text(),
            match result {
                Ok(text) => r.text() == text@,
                Err(_) => r.text() == self.raw_text(),
            },
    {
        match result {
            Ok(text) => CleanedTranscript { raw_text: self.raw_text, text },
            Err(_) => {
                let text = self.raw_text.clone();
                CleanedTranscript { raw_text: self.raw_text, text }
            },
        }
    }
}

impl CleanedTranscript {
    /// What was transcribed.
    pub closed spec fn raw_text(&self) -> Seq<char> {
        self.raw_text@
    }

    /// The cleaned text.
    pub closed spec fn text(&self) -> Seq<char> {
        self.text@
    }

    /// The text for the clipboard.
    pub fn as_str(&self) -> (r: &str)
        ensures
            r@ == self.text(),
    {
        self.text.as_str()
    }

    /// Takes in what the clipboard came to. Only a text that is on the clipboard is
    /// kept and pasted; the settings name the models that made it and say whether
    /// to paste.
    pub fn delivered(
        self,
        copied: Result<(), String>,
        transcribe_ms: u64,
        cleanup_ms: u64,
        settings: &Settings,
    ) -> (r: Result<Delivery, String>)
        ensures
            match copied {
                Err(e) => r == Err::<Delivery, String>(e),
                Ok(_) => r matches Ok(d) && {
                    &&& d.text@ == self.text()
                    &&& d.paste == settings.auto_paste
                    &&& d.entry.text@ == self.text()
                    &&& d.entry.raw_text@ == self.raw_text()
                    &&& d.entry.transcribe_ms == transcribe_ms
                    &&& d.entry.cleanup_ms == cleanup_ms
                    &&& d.entry.stt_model@ == settings.active_whisper_model@
                    &&& d.entry.cleanup_model@ == settings.active_cleanup_model@
                },
            },
    {
        match copied {
            Err(e) => Err(e),
            Ok(_) => {
                let text = self.text.clone();
                Ok(
                    Delivery {
                        entry: HistoryEntry {
                            text: self.text,
                            raw_text: self.raw_text,
                            transcribe_ms,
                            cleanup_ms,
                            stt_model: settings.active_whisper_model.clone(),
                            cleanup_model: settings.active_cleanup_model.clone(),
                        },
                        paste: settings.auto_paste,
                        text,
                    },
                )
            },
        }
    }
}

/// A recording is transcribed exactly if it has a sample.
pub proof fn law_check_samples(samples: usize, r: Result<(), String>)
    requires
        call_ensures(check_samples, (samples,), r),
    ensures
        r is Ok <==> samples > 0,
        r matches Err(e) ==> e@ == "No audio recorded"@,
{
}

/// From the transcriber to the history: a transcription goes on exactly if it has a
/// character; a cleaned text stands in its place where the cleaner gave one, and itself
/// where it failed; and it is kept and pasted only once it is on the clipboard, beside what
/// was said, with the times and models that made it.
pub proof fn law_from_speech_to_history(
    heard: Result<String, String>,
    transcript: Result<Transcript, String>,
    result: Result<String, String>,
    cleaned: CleanedTranscript,
    copied: Result<(), String>,
    transcribe_ms: u64,
    cleanup_ms: u64,
    settings: &Settings,
    delivery: Result<Delivery, String>,
)
    requires
        call_ensures(Transcript::new, (heard,), transcript),
        transcript matches Ok(t) && call_ensures(Transcript::cleaned, (t, result), cleaned),
        call_ensures(
            CleanedTranscript::delivered,
            (cleaned, copied, transcribe_ms, cleanup_ms, settings),
            delivery,
        ),
    ensures
        heard matches Ok(raw) && raw@.len() > 0 && {
            &&& delivery is Ok <==> copied is Ok
            &&& delivery matches Ok(d) ==> {
                &&& d.entry.raw_text@ == raw@
                &&& d.entry.text@ == match result {
                    Ok(text) => text@,
                    Err(_) => raw@,
                }
                &&& d.text@ == d.entry.text@
                &&& d.paste == settings.auto_paste
                &&& d.entry.transcribe_ms == transcribe_ms
                &&& d.entry.cleanup_ms == cleanup_ms
                &&& d.entry.stt_model@ == settings.active_whisper_model@
                &&& d.entry.cleanup_model@ == settings.active_cleanup_model@
            }
        },
        copied matches Err(e) ==> delivery == Err::<Delivery, String>(e),
{
}

/// What the transcriber says is not lost: its error is handed on, and a transcription is
/// refused only if it is empty.
pub proof fn law_transcription_is_heard(
    heard: Result<String, String>,
    transcript: Result<Transcript, String>,
)
    requires
        call_ensures(Transcript::new, (heard,), transcript),
    ensures
        heard matches Err(e) ==> transcript == Err::<Transcript, String>(e),
        heard matches Ok(text) ==> (transcript is Ok <==> text@.len() > 0),
        heard matches Ok(text) ==> (transcript matches Err(e) ==> e@ == "No speech detected"@),
{
}

} // verus!
