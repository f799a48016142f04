# wcpopup

Context menu for Windows and Linux (Gtk3) with dark/light themes and
configurable colors, sizes and fonts.

The library in `src/` holds the rules of the menu, each with a proved
contract:

- `config`: themes, sizes, colors, icon settings and color conversions;
- `menu_item`: menu items, icons, their abstract view and the item builder;
- `layout`: icon slots, item extents, the place of each item and the menu size;
- `menu`: the state of a menu window, radio groups, check items, selection,
  submenus, adding and removing items, and searching the item tree;
- `accelerator`: parsing accelerator texts, key codes, the accelerator table;
- `theme`: resolving and changing themes, colors and style names;
- `geometry`: where menus, submenus and the parts of an item are placed;
- `gtk_rules`: activation and image rules of the Gtk menus;
- `style`: the style sheet of the items of a Gtk menu;
- `messages`: what a menu window does on each window message;
- `builder`: collecting items and making the state of a menu window;
- `laws`: properties across operations.

`app/` holds the platform side: Win32 windows with Direct2D drawing, Gtk
widgets and style sheets, menu events, and serde support for the public
types. Text is measured there and handed to the library as pixel sizes.
