//! The logic of a TV game-streaming menu: a host sidebar, a game grid and the modals over them.
use vstd::prelude::*;

pub mod about;
pub mod addresses;
pub mod app;
pub mod cardmenu;
pub mod cards;
pub mod collections;
pub mod dispatch;
pub mod drawcache;
pub mod flags;
pub mod frame;
pub mod grid;
pub mod gridprep;
pub mod hdr;
pub mod home;
pub mod homeview;
pub mod hostmenu;
pub mod hostpower;
pub mod hosts;
pub mod jobs;
pub mod knownhost;
pub mod laws;
pub mod library;
pub mod listcards;
pub mod menu;
pub mod metadata;
pub mod model;
pub mod nav;
pub mod notices;
pub mod pagespecs;
pub mod pointer;
pub mod profilepick;
pub mod profiles;
pub mod reach;
pub mod recents;
pub mod rows;
pub mod scroll;
pub mod sendlogs;
pub mod seqs;
pub mod settingspage;
pub mod slots;
pub mod sorting;
pub mod speedtest;
pub mod startup;
pub mod text;
pub mod tiles;
pub mod wake;
pub mod wrapping;

verus! {

} // verus!
