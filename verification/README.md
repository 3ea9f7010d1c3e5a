# chess3d

A three-dimensional chess board, drawn with Bevy, whose rules are verified
with Verus.

- `src/board.rs`: the starting board (tiles, pieces, their turns, the
  material each side wears) and its symmetry and counting laws.
- `src/play.rs`: selecting, lifting, moving and capturing pieces by clicks,
  letting go of a selection, and the end of a piece's movement.
- `src/controls.rs`: how the camera rig answers the keyboard.
- `src/menu.rs`: how the menu buttons answer the pointer.
- `app/main.rs`: the Bevy program that draws the scene, reads input and
  hands plain values to the library.
