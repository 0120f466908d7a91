//! kontena: a daemon that keeps a container runtime VM (a podman machine or
//! colima) configured and running. This library holds its verified logic:
//! reading and checking configuration, building the commands it runs, and
//! deciding what their results mean.
pub mod colima;
pub mod error;
pub mod podman;
pub mod util;
