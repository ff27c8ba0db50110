# story_generator

Writes short stories with the OpenAI API: it draws a genre, a theme and an
extra detail from `generator_conf.yml`, asks the chat model for a story, its
title and its genres, asks the image model for a cover, and writes the
results to `story_*.txt`; or it writes a sequel to a story on disk into
`sequel_*.txt`.

- `src/` is the verified library: the prompts (`prompt`), the clean-up of
  the model's genre list (`text`), the configuration and the random draw
  (`config`), the request bodies (`openai`), the two conversations as plans
  that say what to ask for next (`plan`), and properties proved of them
  (`laws`).
- `app/` is the command-line program: argument parsing, the configuration
  file, HTTP and JSON, and the files; it runs the plans.
