//! What the command line says, once it has been read.

use vstd::prelude::*;
use crate::bringup::{Container, ContainerModel};
use crate::plan::texts;
use crate::text::is_container_id;

verus! {

/// The options that hold for every subcommand, and the subcommand, if one was
/// given.
#[derive(Debug)]
pub struct Opt {
    /// Directory that holds the image archives and the unpacked images.
    pub image_dir: String,
    /// Directory that holds the workspaces of the containers.
    pub container_dir: String,
    pub subcommand: Option<Subcommand>,
}

#[derive(Debug)]
pub enum Subcommand {
    /// Run a container.
    Run {
        /// Name of the image, which is the archive's name without `.tar`.
        image_name: String,
        /// The command and its arguments.
        command: Vec<String>,
        /// Memory limit, as the kernel reads it: a byte count, or a number with
        /// one of the suffixes `k`, `m`, `g`.
        memory: String,
        /// Limit on memory plus swap; -1 stands for no limit.
        memory_swap: i32,
        /// CPU shares, a relative weight.
        cpu_shares: i32,
        /// User id that the command runs under.
        uid: u32,
        /// Group id that the command runs under.
        gid: u32,
    },
}

impl Opt {
    /// The container that the command line asks to run, with a fresh
    /// identifier; nothing where no subcommand was given.
    pub fn into_container(self) -> (made: Option<Container>)
        ensures
            made is Some <==> self.subcommand is Some,
            made is Some ==> is_container_id(made->0@.container_id),
            match self.subcommand {
                Some(Subcommand::Run {
                    image_name,
                    command,
                    memory,
                    memory_swap,
                    cpu_shares,
                    uid,
                    gid,
                }) => made is Some && made->0@ == (ContainerModel {
                    image_name: image_name@,
                    image_dir: self.image_dir@,
                    container_dir: self.container_dir@,
                    command: texts(command@),
                    container_id: made->0@.container_id,
                    memory: memory@,
                    memory_swap,
                    cpu_shares,
                    uid,
                    gid,
                }),
                None => made is None,
            },
    {
        match self.subcommand {
            Some(Subcommand::Run {
                image_name,
                command,
                memory,
                memory_swap,
                cpu_shares,
                uid,
                gid,
            }) => Some(
                Container::new(
                    image_name,
                    self.image_dir,
                    self.container_dir,
                    command,
                    memory,
                    memory_swap,
                    cpu_shares,
                    uid,
                    gid,
                ),
            ),
            None => None,
        }
    }
}

} // verus!
