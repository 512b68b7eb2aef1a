# drag_context

The drag source of a Flutter view on macOS.

`src/` is a library, verified with Verus, that makes the decisions:

- `operation`: drop operations, and the masks that AppKit packs them into
- `event`: what is read of AppKit's events, and when a mouse move is made up
- `session`: what is dragged, and drags that are under way
- `start`: the start of a drag, step by step
- `context`: the drag source of one view
- `contexts`: all drag sources, and which of them the messages of a view go to
- `error`: why a request fails
- `callback`: the messages that a view gets methods for
- `laws`: what holds of drag sources whatever happens to them

It takes the events and handles of the platform as values of any type, and gives back what is to be
done.

`app/` does it: it talks to AppKit, to Flutter's engine and to the run loop. `Cargo.toml` asks for
the AppKit bindings in the form that compiles off macOS; on macOS, `apple` takes the place of
`gnustep-2-0` there, and the two Core crates get their default features.
