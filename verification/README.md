# keyboard_heatmap

A keyboard heatmap: a window that draws a keyboard and colours each key by how
often it was pressed.

- `src/` is the verified library: the key layouts of the three supported
  keyboards (MacBook, 87 keys, Weikav Alice 68) with the tilt and shift of each
  Alice key, the searchable font selector and its keyboard navigation, the
  sorted list of font families, the heat value and colour cache of a key box,
  and the triangles of a tilted key's outline.
- `app/` is the window around it: egui drawing, settings on disk, system font
  loading and the key listener.
