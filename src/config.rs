use vstd::prelude::*;
use crate::schema::{DataType, Field, Schema};

verus! {

/// How an ingestion run is set up.
#[derive(Clone, Debug)]
pub struct IngestConfig {
    /// Where the table lives (a path or URI).
    pub location: String,
    /// The table's name, used when it is created.
    pub name: String,
    /// Top-level columns the table is partitioned by, in order.
    pub partition_columns: Vec<String>,
    /// A checkpoint follows every commit whose version is a multiple of this.
    pub checkpoint_interval: u64,
    /// How many times a batch is resubmitted after a conflict.
    pub max_commit_retries: u32,
}

/// Why a configuration cannot be used.
#[derive(PartialEq, Eq, Structural, Clone, Copy, Debug)]
pub enum ConfigError {
    MissingLocation,
    MissingName,
    ZeroCheckpointInterval,
    /// The partition column at this position is not a top-level column.
    UnknownPartitionColumn(usize),
}

/// Whether `name` is a top-level field of primitive type, by which a table can
/// be partitioned.
pub open spec fn is_top_level_column(fields: Seq<Field>, name: Seq<char>) -> bool {
    exists|i: int| 0 <= i < fields.len() && (#[trigger] fields[i]).name@ == name && fields[i].data_type is Primitive
}

/// The first configuration error, in the order location, name, interval,
/// partition columns; `None` when the configuration is usable.
pub open spec fn config_error(
    location: Seq<char>,
    name: Seq<char>,
    partition_columns: Seq<Seq<char>>,
    checkpoint_interval: nat,
    columns: Seq<Field>,
) -> Option<ConfigError> {
    if location.len() == 0 {
        Some(ConfigError::MissingLocation)
    } else if name.len() == 0 {
        Some(ConfigError::MissingName)
    } else if checkpoint_interval == 0 {
        Some(ConfigError::ZeroCheckpointInterval)
    } else {
        match first_unknown_partition(columns, partition_columns, 0) {
            Some(i) => Some(ConfigError::UnknownPartitionColumn(i as usize)),
            None => None,
        }
    }
}

/// The position of the first partition column, from `start` on, that is not a
/// top-level column.
pub open spec fn first_unknown_partition(columns: Seq<Field>, parts: Seq<Seq<char>>, start: nat) -> Option<nat>
    decreases parts.len() - start,
{
    if start >= parts.len() {
        None
    } else if !is_top_level_column(columns, parts[start as int]) {
        Some(start)
    } else {
        first_unknown_partition(columns, parts, start + 1)
    }
}

/// Whether `name` is a top-level field of primitive type, by which a table can
/// be partitioned.
pub fn is_partition_candidate(schema: &Schema, name: &String) -> (r: bool)
    ensures
        r == is_top_level_column(schema.fields@, name@),
{
    let mut i: usize = 0;
    while i < schema.fields.len()
        invariant
            i <= schema.fields@.len(),
            forall|j: int| 0 <= j < i ==> !((#[trigger] schema.fields@[j]).name@ == name@ && schema.fields@[j].data_type is Primitive),
        decreases schema.fields@.len() - i,
    {
        let field = &schema.fields[i];
        let primitive = match field.data_type {
            DataType::Primitive(_) => true,
            DataType::Struct(_) => false,
        };
        if primitive && field.name == *name {
            return true;
        }
        i = i + 1;
    }
    false
}

impl IngestConfig {
    /// Checks the configuration against the table's schema.
    pub fn validate(&self, schema: &Schema) -> (r: Result<(), ConfigError>)
        ensures
            match config_error(
                self.location@,
                self.name@,
                self.partition_columns@.map_values(|s: String| s@),
                self.checkpoint_interval as nat,
                schema.fields@,
            ) {
                Some(e) => r == Err::<(), ConfigError>(e),
                None => r is Ok,
            },
    {
        let ghost parts = self.partition_columns@.map_values(|s: String| s@);
        if self.location.as_str().is_empty() {
            return Err(ConfigError::MissingLocation);
        }
        if self.name.as_str().is_empty() {
            return Err(ConfigError::MissingName);
        }
        if self.checkpoint_interval == 0 {
            return Err(ConfigError::ZeroCheckpointInterval);
        }
        let mut i: usize = 0;
        while i < self.partition_columns.len()
            invariant
                i <= parts.len(),
                self.location@.len() != 0,
                self.name@.len() != 0,
                self.checkpoint_interval != 0,
                parts == self.partition_columns@.map_values(|s: String| s@),
                first_unknown_partition(schema.fields@, parts, 0) == first_unknown_partition(schema.fields@, parts, i as nat),
            decreases parts.len() - i,
        {
            assert(parts[i as int] == self.partition_columns@[i as int]@);
            if !is_partition_candidate(schema, &self.partition_columns[i]) {
                assert(first_unknown_partition(schema.fields@, parts, i as nat) == Some(i as nat));
                return Err(ConfigError::UnknownPartitionColumn(i));
            }
            i = i + 1;
        }
        Ok(())
    }
}

} // verus!
