# crashdoctor

Reads a Minecraft crash report (Forge 1.20.1) and tells which mod broke the game, why, what the
evidence is and how to fix it. It runs offline.

The library under `src/` is written in Verus: what each function does stands in its contract and is
proved.

- `model`: what a report and a diagnosis hold, and looking things up in a report
- `report`: reads the text of a report
- `rules`: the rules that make a diagnosis, one module for each kind of crash, and which of their
  verdicts counts
- `terminal`: what is printed
- `ui`: the page in the browser: requests, answers, JSON and the list of recent reports
- `text`, `number`, `pattern`: text as sequences of characters, numbers as text, and regular
  expressions, which the `regex` crate matches
- `laws`: what holds of the library as a whole

The program itself, with its files and sockets, is under `app/`. It ends with 0 where a culprit is
named, with 2 where there is none, and with 1 on bad usage or an unreadable file.

What is not proved is what the standard library and the `regex` crate do. Each place where the
library relies on them says so, and what it relies on.
