//! The job scripts handed to `Rscript`: one per phase, parameterised by the
//! repository path, the worker count and the environment facts. Every
//! operator-controlled string enters a script through
//! [`r_string_literal`](crate::util::r_string_literal).
use vstd::prelude::*;
use vstd::string::StringExecFns;

use crate::text::{decimal, decimal_of, lower_of, string_of, to_lowercase};
use crate::util::{r_literal, r_string_literal};

verus! {

broadcast use vstd::string::group_string_axioms;

/// Opens the prelude shared by the revdep scripts, up to the repository literal.
pub const PRELUDE_HEAD: &'static str = r#"
setwd("#;

/// The prelude between the repository literal and the worker count.
pub const PRELUDE_MID: &'static str = r#")

revdep_dir <- file.path("revdep")
dir.create(revdep_dir, recursive = TRUE, showWarnings = FALSE)

library_dir <- file.path(revdep_dir, "library")
dir.create(library_dir, recursive = TRUE, showWarnings = FALSE)

Sys.setenv(R_LIBS_USER = library_dir)
.libPaths(c(library_dir, .libPaths()))

install_workers <- max("#;

/// Closes the prelude.
pub const PRELUDE_TAIL: &'static str = r#", parallel::detectCores())
options(Ncpus = install_workers)
"#;

/// The install script after the prelude, up to the codename literal.
pub const INSTALL_HEAD: &'static str = r#"

binary_repo <- sprintf("https://packagemanager.posit.co/cran/__linux__/%s/latest", "#;

/// The install script after the codename literal.
pub const INSTALL_TAIL: &'static str = r#")
source_repo <- "https://packagemanager.posit.co/cran/latest"

options(
  repos = c(posit = binary_repo),
  BioC_mirror = "https://packagemanager.posit.co/bioconductor",
  Ncpus = install_workers
)
Sys.setenv(NOT_CRAN = "true")

ensure_installed <- function(pkg, repo = source_repo) {
  if (!requireNamespace(pkg, quietly = TRUE)) {
    install.packages(
      pkg,
      repos = repo,
      lib = library_dir,
      quiet = TRUE,
      Ncpus = install_workers
    )
  }
}

ensure_installed("xfun")

package_name <- read.dcf("DESCRIPTION", fields = "Package")[1, 1]
if (!nzchar(package_name)) {
  stop("Failed to read package name from DESCRIPTION")
}

db <- available.packages(repos = source_repo, type = "source")
revdeps <- tools::package_dependencies(
  packages = package_name,
  db = db,
  which = c("Depends", "Imports", "LinkingTo", "Suggests"),
  reverse = TRUE
)[[package_name]]

revdeps <- sort(unique(stats::na.omit(revdeps)))

base_pkgs <- unique(c(.BaseNamespaceEnv$basePackage, rownames(installed.packages(priority = "base"))))
revdeps <- setdiff(revdeps, base_pkgs)

install_targets <- sort(unique(c(package_name, revdeps)))

available_packages <- rownames(db)
missing_packages <- setdiff(install_targets, available_packages)
if (length(missing_packages) > 0) {
  message(
    "Skipping packages not available from repository: ",
    paste(missing_packages, collapse = ", ")
  )
}
install_targets <- setdiff(install_targets, missing_packages)

dependency_kinds <- c("Depends", "Imports", "LinkingTo", "Suggests")
dependency_map <- tools::package_dependencies(
  packages = install_targets,
  db = db,
  which = dependency_kinds,
  recursive = FALSE
)
extra_deps <- unique(unlist(dependency_map, use.names = FALSE))
extra_deps <- extra_deps[!is.na(extra_deps) & nzchar(extra_deps)]
extra_deps <- intersect(extra_deps, available_packages)
extra_deps <- setdiff(extra_deps, c(base_pkgs, install_targets))
install_targets <- sort(unique(c(install_targets, extra_deps)))

if (length(revdeps) == 0) {
  message("No CRAN reverse dependencies detected; installing package binary only.")
}

if (length(install_targets) > 0) {
  install.packages(
    install_targets,
    repos = binary_repo,
    lib = library_dir,
    quiet = TRUE,
    Ncpus = install_workers
  )
} else {
  stop("No installation targets determined for install.packages().")
}
"#;

/// The run script after the prelude.
pub const RUN_BODY: &'static str = r#"

source_repo <- "https://packagemanager.posit.co/cran/latest"

options(
  repos = c(CRAN = source_repo),
  BioC_mirror = "https://packagemanager.posit.co/bioconductor",
  Ncpus = install_workers,
  mc.cores = install_workers
)
Sys.setenv(NOT_CRAN = "true")

ensure_installed <- function(pkg) {
  if (!requireNamespace(pkg, quietly = TRUE)) {
    install.packages(
      pkg,
      repos = source_repo,
      lib = library_dir,
      quiet = TRUE,
      Ncpus = install_workers
    )
  }
}

ensure_installed("xfun")
ensure_installed("markdown")
ensure_installed("rmarkdown")

options(xfun.rev_check.summary = TRUE)

package_name <- read.dcf("DESCRIPTION", fields = "Package")[1, 1]
if (!nzchar(package_name)) {
  stop("Failed to read package name from DESCRIPTION")
}

results <- xfun::rev_check(package_name, src = ".")
invisible(results)
"#;

/// The setup script up to the first worker count.
pub const SYSREQS_HEAD: &'static str = r#"
options(warn = 2)

cran_repo <- "https://cloud.r-project.org/"

options(
  repos = c(CRAN = cran_repo),
  BioC_mirror = "https://packagemanager.posit.co/bioconductor",
  Ncpus = "#;

/// The setup script between the two worker counts.
pub const SYSREQS_MID: &'static str = r#"
)
Sys.setenv(NOT_CRAN = "true")

user_lib <- Sys.getenv("R_LIBS_USER")
if (!nzchar(user_lib)) {
  stop('R_LIBS_USER is empty; cannot install packages into user library')
}
dir.create(user_lib, recursive = TRUE, showWarnings = FALSE)
.libPaths(c(user_lib, .libPaths()))

ensure_installed <- function(pkg) {
  if (!requireNamespace(pkg, quietly = TRUE)) {
    install.packages(
      pkg,
      repos = getOption("repos"),
      lib = user_lib,
      quiet = TRUE,
      Ncpus = "#;

/// The setup script between the second worker count and the package literal.
pub const SYSREQS_PRE_PACKAGE: &'static str = r#"
    )
  }
}

ensure_installed("pak")

if (!requireNamespace("revdepcheck", quietly = TRUE)) {
  pak::pkg_install(
    "r-lib/revdepcheck",
    lib = user_lib,
    ask = FALSE,
    upgrade = FALSE,
    dependencies = TRUE
  )
}

pkg_name <- "#;

/// The setup script after the package literal.
pub const SYSREQS_TAIL: &'static str = r#"

revdeps <- revdepcheck::cran_revdeps(pkg_name, dependencies = TRUE, bioc = FALSE, cran = TRUE)
cranpkgs <- unname(available.packages(repos = cran_repo)[, "Package"])
cranrevdeps <- revdeps[revdeps %in% cranpkgs]

sysreqs <- if (length(cranrevdeps) == 0) {
  list(install_scripts = character(), post_install = character())
} else {
  pak::pkg_sysreqs(cranrevdeps, sysreqs_platform = "ubuntu")
}

if (!is.list(sysreqs) || is.null(sysreqs$install_scripts) || is.null(sysreqs$post_install)) {
  stop("unexpected sysreqs payload")
}
sysreqs$post_install <- unique(sysreqs$post_install)

cat(jsonlite::toJSON(sysreqs[c('install_scripts', 'post_install')], auto_unbox = TRUE))
"#;

/// The worker count written into the scripts: at least one.
pub open spec fn workers_text(workers: int) -> Seq<char> {
    decimal(
        if workers < 1 {
            1
        } else {
            workers as nat
        },
    )
}

fn workers_string(num_workers: usize) -> (r: String)
    ensures
        r@ == workers_text(num_workers as int),
{
    let workers: usize = if num_workers < 1 {
        1
    } else {
        num_workers
    };
    string_of(&decimal_of(workers as u64))
}

pub open spec fn prelude_text(repo: Seq<char>, workers: int) -> Seq<char> {
    PRELUDE_HEAD@ + r_literal(repo) + PRELUDE_MID@ + workers_text(workers) + PRELUDE_TAIL@
}

/// The prelude of the revdep scripts: it enters the repository and sets up
/// the library directory and the worker count.
pub fn script_prelude(repo_path: &str, num_workers: usize) -> (r: String)
    ensures
        r@ == prelude_text(repo_path@, num_workers as int),
{
    let mut s = String::from_str(PRELUDE_HEAD);
    s.append(r_string_literal(repo_path).as_str());
    s.append(PRELUDE_MID);
    s.append(workers_string(num_workers).as_str());
    s.append(PRELUDE_TAIL);
    s
}

pub open spec fn install_script_text(repo: Seq<char>, workers: int, codename: Seq<char>) -> Seq<
    char,
> {
    prelude_text(repo, workers) + INSTALL_HEAD@ + r_literal(lower_of(codename)) + INSTALL_TAIL@
}

/// The script that installs the package, its reverse dependencies and their
/// dependencies from the binary repository for `codename`.
pub fn build_revdep_install_script(repo_path: &str, num_workers: usize, codename: &str) -> (r:
    String)
    ensures
        r@ == install_script_text(repo_path@, num_workers as int, codename@),
{
    let mut s = script_prelude(repo_path, num_workers);
    s.append(INSTALL_HEAD);
    let lower = to_lowercase(codename);
    s.append(r_string_literal(lower.as_str()).as_str());
    s.append(INSTALL_TAIL);
    s
}

pub open spec fn run_script_text(repo: Seq<char>, workers: int) -> Seq<char> {
    prelude_text(repo, workers) + RUN_BODY@
}

/// The script that runs `xfun::rev_check()` on the repository.
pub fn build_revdep_run_script(repo_path: &str, num_workers: usize) -> (r: String)
    ensures
        r@ == run_script_text(repo_path@, num_workers as int),
{
    let mut s = script_prelude(repo_path, num_workers);
    s.append(RUN_BODY);
    s
}

pub open spec fn sysreqs_script_text(package: Seq<char>, workers: int) -> Seq<char> {
    SYSREQS_HEAD@ + workers_text(workers) + SYSREQS_MID@ + workers_text(workers)
        + SYSREQS_PRE_PACKAGE@ + r_literal(package) + SYSREQS_TAIL@
}

/// The script that resolves the system requirements of the reverse
/// dependencies of `package_name` and prints them as JSON.
pub fn build_sysreqs_script(package_name: &str, num_workers: usize) -> (r: String)
    ensures
        r@ == sysreqs_script_text(package_name@, num_workers as int),
{
    let workers = workers_string(num_workers);
    let mut s = String::from_str(SYSREQS_HEAD);
    s.append(workers.as_str());
    s.append(SYSREQS_MID);
    s.append(workers.as_str());
    s.append(SYSREQS_PRE_PACKAGE);
    s.append(r_string_literal(package_name).as_str());
    s.append(SYSREQS_TAIL);
    s
}

} // verus!
