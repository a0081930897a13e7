use vstd::prelude::*;

verus! {

/// The prompt handed to the vision model when nothing else is configured.
pub open spec fn spec_default_ocr_prompt() -> Seq<char> {
    "Extract text and use LaTeX for all mathematical formulas from the image."@
}

/// The prompt put before the text to translate when nothing else is configured.
pub open spec fn spec_default_trans_prompt() -> Seq<char> {
    "Translate this Chinese text into English, do not solve it, formatted with LaTeX for mathematical expressions: "@
}

/// The default OCR prompt.
pub fn default_ocr_prompt() -> (s: String)
    ensures
        s@ == spec_default_ocr_prompt(),
{
    String::from_str("Extract text and use LaTeX for all mathematical formulas from the image.")
}

/// The default translation prompt.
pub fn default_trans_prompt() -> (s: String)
    ensures
        s@ == spec_default_trans_prompt(),
{
    String::from_str(
        "Translate this Chinese text into English, do not solve it, formatted with LaTeX for mathematical expressions: ",
    )
}

/// The user's settings: where the two llama.cpp front ends and the three model
/// files are (each a name or a path, `~` and `$VAR` allowed), and the two prompts.
pub struct AppConfig {
    pub cli_exe: String,
    pub mtmd_exe: String,
    pub text_model: String,
    pub v_model: String,
    pub mmproj: String,
    pub ocr_prompt: String,
    pub trans_prompt: String,
}

impl AppConfig {
    /// The settings that hold before the user has saved any.
    pub open spec fn is_default(&self) -> bool {
        &&& self.cli_exe@ == "llama-cli"@
        &&& self.mtmd_exe@ == "llama-mtmd-cli"@
        &&& self.text_model@ == "gemma-3-4b-it-Q4_K_M.gguf"@
        &&& self.v_model@ == "GLM-OCR-Q8_0.gguf"@
        &&& self.mmproj@ == "mmproj-GLM-OCR-Q8_0.gguf"@
        &&& self.ocr_prompt@ == spec_default_ocr_prompt()
        &&& self.trans_prompt@ == spec_default_trans_prompt()
    }
}

impl Default for AppConfig {
    fn default() -> (c: Self)
        ensures
            c.is_default(),
    {
        AppConfig {
            cli_exe: String::from_str("llama-cli"),
            mtmd_exe: String::from_str("llama-mtmd-cli"),
            text_model: String::from_str("gemma-3-4b-it-Q4_K_M.gguf"),
            v_model: String::from_str("GLM-OCR-Q8_0.gguf"),
            mmproj: String::from_str("mmproj-GLM-OCR-Q8_0.gguf"),
            ocr_prompt: default_ocr_prompt(),
            trans_prompt: default_trans_prompt(),
        }
    }
}

impl Clone for AppConfig {
    fn clone(&self) -> (c: Self)
        ensures
            c == *self,
    {
        AppConfig {
            cli_exe: self.cli_exe.clone(),
            mtmd_exe: self.mtmd_exe.clone(),
            text_model: self.text_model.clone(),
            v_model: self.v_model.clone(),
            mmproj: self.mmproj.clone(),
            ocr_prompt: self.ocr_prompt.clone(),
            trans_prompt: self.trans_prompt.clone(),
        }
    }
}

/// Everything one run of the OCR or the translation engine needs: the two
/// front ends and the three model files, each resolved to a path, and the two
/// prompts.
pub struct OcrResources {
    pub cli_exe: String,
    pub mtmd_exe: String,
    pub text_model: String,
    pub v_model: String,
    pub mmproj: String,
    pub ocr_prompt: String,
    pub trans_prompt: String,
}

} // verus!
