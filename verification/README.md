# lib

Verified building blocks for slices, written in Verus.

- `util`: small helpers, and the declarations through which Verus reads
  `core::ops::Bound` and the `core::ops` range types.
- `bounds`: `SliceBounds` and `SliceRange`, a `start..end` range that always
  has `start <= end`, built from bounds within a slice length with every
  failure reported exactly.
- `range`: the `SliceRange` trait over `IndexRange`, bound pairs and the
  `core::ops` ranges, and conversion of ranges into index ranges within
  `..len`.
- `slice`: the `Slice` trait over `[T]` and `str` (elements, validity, and
  where a slice may be split), with its error types and `OobIndex`; the
  errors of `str`, of splitting and of bounds describe themselves through
  `to_string`.
- `str`: UTF-8 character boundaries, including `floor_char_boundary`.
- `slide`, `slide_mut`: cursors over shared and mutable slices.
- `raw`: `RawSlide`, a cursor over any `Slice` that only rests on valid split
  indices (character boundaries for `str`), and `Lengths`.

Every function states its behaviour in `requires`/`ensures`; the laws that
relate several operations (round trips of advancing and rewinding, the
coverage of bounds, splitting and rejoining) are public proof functions next
to the types they describe. The tests in `tests/` exercise the same behaviour
on concrete values.
