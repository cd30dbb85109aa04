# vecmath

Fixed-size vectors and matrices for graphics code, with every operation
specified and proved in Verus.

- `src/` is the verified library. Vectors (`vector`, `vector_ops`, `swizzle`),
  matrices (`matrix`, `matrix_ops`) and unit-tagged angles (`angle`) work over
  the boolean and every machine-integer component type of `scalar`. Each operation states
  its result over the mathematical integers its components stand for, and
  refuses by precondition the inputs on which fixed-width arithmetic would
  overflow. `laws` proves the algebra the operations obey: the cross product is
  anti-commutative and orthogonal to its arguments, transposing twice gives the
  matrix back, the identity is neutral, the determinant of a 3x3 or 4x4 matrix
  equals that of its transpose, and the adjugate times the matrix, and
  the matrix times the adjugate, is the determinant times the identity, among
  others.
- `tests/` runs the library on concrete values.
- `app/` holds what floating point needs: length and normalization, angle unit
  conversions and trigonometry, quaternions, inverses and the camera and
  projection transforms, on copies of the library's types that also derive
  `serde`'s traits and convert to and from them.
