# crab_rhythm

A rhythm battle between two crabs: notes slide down four lanes towards the
player's crab, and pressing a lane's key on time strikes the opponent, while a
missed note hurts the player.

`src/` is the verified library (Verus): the note chart, spawning and judging
notes, scoring with the combo multiplier, the fight and its end, the beat
clock, the crab reactions and HUD values, the drum loop of the backing track
and the WAVE file encoder. Times are whole microseconds and note times whole
sixteenth-note steps, so every timing rule is exact.

`app/` is the bevy game around it: the scene, the crabs, the UI, key input,
and `gen-audio`, which renders the drum loop to `assets/audio/beat.wav`.

`tests/` exercises the library on concrete values.
