//! A small Linux container runtime, seen as a planner: from a container's
//! description it computes, step by step, what has to be asked of the kernel to
//! bring the guest up, and states the order in which that happens.

use vstd::prelude::*;
use crate::bringup::{Container, ContainerModel};
use crate::plan::texts;
use crate::text::is_container_id;

pub mod bringup;
pub mod cli;
pub mod flags;
pub mod ordering;
pub mod outcome;
pub mod paths;
pub mod plan;
pub mod text;
pub mod util;

verus! {

/// The least that describes a container: its image, the two directories and
/// the command.
#[derive(Debug)]
pub struct Arguments {
    image_name: String,
    image_dir: String,
    container_dir: String,
    command: Vec<String>,
}

/// What `Arguments` hold, with the texts as sequences of characters.
pub struct ArgumentsModel {
    pub image_name: Seq<char>,
    pub image_dir: Seq<char>,
    pub container_dir: Seq<char>,
    pub command: Seq<Seq<char>>,
}

impl View for Arguments {
    type V = ArgumentsModel;

    closed spec fn view(&self) -> ArgumentsModel {
        ArgumentsModel {
            image_name: self.image_name@,
            image_dir: self.image_dir@,
            container_dir: self.container_dir@,
            command: texts(self.command@),
        }
    }
}

impl Arguments {
    pub fn new(
        image_name: String,
        image_dir: String,
        container_dir: String,
        command: Vec<String>,
    ) -> (arguments: Arguments)
        ensures
            arguments@ == (ArgumentsModel {
                image_name: image_name@,
                image_dir: image_dir@,
                container_dir: container_dir@,
                command: texts(command@),
            }),
    {
        Arguments { image_name, image_dir, container_dir, command }
    }
}

/// The container that the arguments describe: a fresh identifier, a memory
/// limit of `1G` with no limit on swap, the default CPU weight, and the
/// command running as user 0 and group 0.
pub fn run(args: Arguments) -> (container: Container)
    ensures
        is_container_id(container@.container_id),
        container@ == (ContainerModel {
            image_name: args@.image_name,
            image_dir: args@.image_dir,
            container_dir: args@.container_dir,
            command: args@.command,
            container_id: container@.container_id,
            memory: "1G"@,
            memory_swap: -1i32,
            cpu_shares: 0,
            uid: 0,
            gid: 0,
        }),
{
    Container::new(
        args.image_name,
        args.image_dir,
        args.container_dir,
        args.command,
        String::from_str("1G"),
        -1,
        0,
        0,
        0,
    )
}

} // verus!
