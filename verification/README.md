# solanum

The logic of Solanum, a pomodoro timer for GNOME, as a library verified with
Verus, and the GTK front end around it.

- `src/` is the verified library:
  - `timer`: the countdown timer as a state machine (set, start, tick, stop),
    with laws on pausing, on the countdown never going back up, and on when a
    lap turns over.
  - `window`: the session of the main window: laps, the work-lap count, long
    and short breaks, the timer button, reset, skip and the end of a lap,
    with laws such as "every N-th break is a long one".
  - `format`: the text of the countdown label.
  - `config`: build-time defaults and the development-build check.
  - `template`: reading `#[template_child(id = "...")]` attributes and the
    template-child bindings of a composite-template derive.
- `app/` is the GTK program: it reads the settings and the clock, draws what
  the library returns, plays sounds and sends notifications.
- `tests/` exercises the library on concrete values.
