# the_handler

The verified core of a job-hunting assistant: it reads job listings from
LinkedIn, researches the hiring company, tailors a resume to the job, answers
application forms, and keeps the user's knowledge bases, preferences and
sealed Google tokens.

## Layout

- `src/` — the library, written and proved with Verus. Every public function
  states what it returns in `ensures`, over specification functions on
  sequences of characters; the laws of the library are public proof
  functions (`lemma_*`).
  - `text` — trimming, splitting, joining and searching text.
  - `money` — currencies and their detection in salary strings.
  - `directory`, `linkedin`, `apply` — job listings, LinkedIn search URLs,
    reading scraped job cards, filtering listings and the application
    dialogue.
  - `research`, `flows` — prompts and replies of the company research, and
    the typed research and resume pipelines.
  - `resume`, `composer`, `template` — resume content, its assembly, its
    Markdown rendering, its PDF layout and line breaking.
  - `crypto` — sealing tokens with AES-256-GCM and base64.
  - `knowledge`, `preferences`, `auth`, `users`, `multipart`, `settings` —
    the service-side rules.
- `tests/` — tests of the library on concrete values.
- `app/` — ordinary Rust around the library: JSON shapes, the language-model
  agents, the browser automation, PDF drawing with `printpdf`, currency
  conversion and key-file handling.
