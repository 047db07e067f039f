//! Domain packs for agents: what an agent of a domain can use, what it is told and
//! what it may do.
//!
//! A pack holds tools, sources of context, permissions, strategies, a template for
//! summaries, a profile of memory, workflows and prompts ([`domain_pack`]). Packs come
//! ready made ([`coding_pack`], [`research_pack`], [`containerized_pack`]), from a
//! configuration ([`config_parser`], [`spec_file`], [`validator`], [`domain_spec`]) or
//! from a registry ([`market`]), and several of them make one ([`merge`]).
//!
//! Around them stand what agents exchange with models and people ([`types`],
//! [`embedding`], [`retrieval`], [`session`], [`usage`]), what is found out about a
//! project ([`builtin_sources`], [`project_probe`], [`project_info`], [`repo_map`]) and
//! how the state of its tasks is kept ([`working_state`], [`memory_profile`]).
//!
//! Contracts speak of contents: of texts as sequences of characters, of lists as
//! sequences and of tables as sequences of pairs in which no key comes twice
//! ([`collections`], [`text`], [`data`]). A function whose name begins with `law_`
//! states what holds across functions. Files, processes and the clock are read by
//! whoever calls: the functions here take what was read.

pub mod builtin_sources;
pub mod coding_pack;
pub mod collections;
pub mod compression_template;
pub mod config_parser;
pub mod containerized_pack;
pub mod context_source;
pub mod data;
pub mod domain_pack;
pub mod domain_spec;
pub mod duplicate;
pub mod embedding;
pub mod market;
pub mod memory_profile;
pub mod merge;
pub mod paradigm_strategy;
pub mod patterns;
pub mod permission_profile;
pub mod project_info;
pub mod project_probe;
pub mod repo_map;
pub mod research_pack;
pub mod retrieval;
pub mod session;
pub mod spec_file;
pub mod text;
pub mod time;
pub mod tool_decorator;
pub mod types;
pub mod usage;
pub mod validator;
pub mod workflow;
pub mod working_state;
