# NyatiDraw desktop core

The decision core of the NyatiDraw desktop application, written in Verus.

`src/` holds the rules: how pen samples become strokes and edits, which editor
commands are let through, how closed strokes reach the project writer, how
documents are opened, switched, copied and exported, and how preferences are
stored. Every function states what it does in its contract, over mathematical
views of its data. What holds across functions is stated in public proof
functions beside them.

`app/` is the host: files, pipes, floating-point geometry, panels and the loops
that perform what the core asks for, from the render actor and the frames of an
open canvas to the writer's thread. Engines that live elsewhere in the product
(brush, input queue, project store, scene) are reached through its traits.

`tests/` runs the core on concrete values.
