# ocr_tools

A desktop helper that reads the text (and formulas, as LaTeX) out of a picture
with a local llama.cpp vision model, and translates it with a local text model.

- `src/` is the verified library: the window's state machine (`session`), the
  way programs and model files are found from the settings (`resources`,
  `paths`), how the engines are started and how their output is read and
  cleaned (`engine`), the steps of a recognition or translation run around
  the process (`run`), the settings' defaults (`config`), the history's
  statements, labels and timestamps (`history`), and the text helpers they rest on
  (`text`). Each public function carries a contract that Verus proves.
- `app/` is the egui program around it: drawing, file dialogs, the clipboard,
  starting processes, probing the disk, the SQLite history and stored settings.
