# Insiculous Pong (Tong)

Pong with kitchen tongs for paddles, a meatball for the ball and grills for goals,
built on the insiculous_2d engine.

The game is split in two:

- `src/` is the rules, verified with Verus: the tongs' jaws and facings and the clip
  machines that draw them, goal and hit detection from a frame's contacts, the score
  and the win, the match's lifecycle, the menus, power-up rules, achievements, the
  playfield's integer layout and the HUD's text. Each public function states what it
  does in its `ensures`; the proof functions (`lemma_*`) state the laws that hold
  across calls.
- `app/` is the game around the rules: the engine's world, physics, sprites, sound,
  input and screen, and every floating-point measurement (collider shapes, speeds,
  timers, the ball's position). It reads the engine, hands the rules plain values,
  and carries out what they decide.

`tests/` runs the rules on concrete matches.
