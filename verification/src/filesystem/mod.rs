//! Which files on disk the server looks at, and how their paths move between folders.

pub mod images;
