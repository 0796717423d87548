pub mod keybindings;
