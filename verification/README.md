# dynlint driver builder

A verified library for the part of Dynlint that provides compiler drivers:
what a driver package contains (`manifest`), how a driver's reported version
is read and compared with the running tool's (`version`), the order of
semantic versions and its proof as a total order (`precedence`), the names, flags
and messages of a driver build (`builder`), and the order of the steps that
find, and if need be build, a driver (`lookup`).

`app/` performs those steps against the file system, the environment and
the processes (`cargo`, `rustup`, the driver itself).
