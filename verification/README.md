# show_weather_card

A tool that shows a weather card for a city in one step. A caller names a city; the tool finds
the place, fetches its weather from open-meteo, and answers with a message that carries the
state of a card and a one-line text for clients that cannot draw it.

* `src/` is the library, verified with Verus. It decides everything: which address to ask next,
  which place to take, what a card says, and how a run ends. It works on plain values; measured
  values are carried as the bits of their IEEE 754 form and rounded in integer arithmetic.
* `app/` performs the requests, reads their JSON, and sends the cards.
* `tests/` runs the library on given values, and compares its rounding and formatting of measured
  values with those of floating point.

A run is a chain of steps: `tool::ShowWeatherCardTool::begin` says what to do first, and
`run::Searching::advance`, `run::Fetching::advance` and `run::finish_send` say what follows each
reply. The laws of runs stand at the end of `src/run.rs` and `src/tool.rs`, those of a card's
data in `src/state.rs`, `src/message.rs` and `src/periods.rs`.
