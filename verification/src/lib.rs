//! The backend of a personal task manager: the verified core of its
//! database initialisation and of the rules behind its commands.
//!
//! The heart of the crate is the startup sequence ([`db`]): it brings the
//! schema of a database file, whatever its history, to the form the
//! application needs. Pending migration units are applied ([`catalog`],
//! [`ledger`], [`convergence`]), the live schema is reconciled
//! ([`reconciler`]), a file that is still empty gets the baseline schema
//! ([`bootstrap`]) and an empty task table a few example rows ([`seeder`]).
//! What the sequence achieves is stated over a mathematical picture of the
//! database ([`model`]) and proved in [`theorems`]. The executable functions
//! fix the plan and the statements that are issued, and say what each answer
//! of SQLite comes to; that SQLite follows the picture is not proved.
//!
//! Around it stand the records of the application and the rules of its
//! commands: tasks, projects, tags, relationships, attachments, templates,
//! experience and badges, reminders, pomodoro sessions, statistics,
//! translations, export and import.
//!
//! SQLite is reached through [`sqlite`] alone. What is taken on trust of it,
//! and of the few other calls that leave the crate, is written down there
//! and beside each such call.

pub mod attachments;
pub mod bootstrap;
pub mod catalog;
pub mod clock;
pub mod commands;
pub mod convergence;
pub mod db;
pub mod error;
pub mod gamification;
pub mod ids;
pub mod json;
pub mod ledger;
pub mod lemmas;
pub mod model;
pub mod notifications;
pub mod numbers;
pub mod pomodoro_service;
pub mod projects;
pub mod reconciler;
pub mod relationships;
pub mod rows;
pub mod schema;
pub mod seeder;
pub mod settings;
pub mod sqlite;
pub mod statement;
pub mod stats_service;
pub mod subtasks;
pub mod tags;
pub mod tasks;
pub mod templates;
pub mod text;
pub mod theorems;
pub mod transfer;
pub mod translation_service;
