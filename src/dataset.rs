//! The three datasets and the fixed configuration of each.
use vstd::prelude::*;
use crate::json::texts;
use crate::record::{Column, ColumnView, FieldKind, column_views, header_of};

verus! {

/// One of the datasets of the geographic reference service.
#[derive(Clone, Copy, Debug, PartialEq, Eq, Structural)]
pub enum Dataset {
    Municipalities,
    Departments,
    Localities,
}

/// A column as plain values.
pub open spec fn col(name: Seq<char>, path: Seq<Seq<char>>, kind: FieldKind) -> ColumnView {
    ColumnView { name, path, kind }
}

/// The columns shared by municipalities and departments.
pub open spec fn place_columns() -> Seq<ColumnView> {
    seq![
        col("id"@, seq!["id"@], FieldKind::Text),
        col("Nombre"@, seq!["nombre"@], FieldKind::Text),
        col("Provincia"@, seq!["provincia"@, "nombre"@], FieldKind::Text),
        col("Lat"@, seq!["centroide"@, "lat"@], FieldKind::Number),
        col("Lon"@, seq!["centroide"@, "lon"@], FieldKind::Number),
    ]
}

/// The columns of localities.
pub open spec fn locality_columns() -> Seq<ColumnView> {
    seq![
        col("id"@, seq!["id"@], FieldKind::Text),
        col("Nombre"@, seq!["nombre"@], FieldKind::Text),
        col("Categoria"@, seq!["categoria"@], FieldKind::Text),
        col("Departamento"@, seq!["departamento"@, "nombre"@], FieldKind::Text),
        col("Municipio"@, seq!["municipio"@, "nombre"@], FieldKind::Text),
        col("Provincia"@, seq!["provincia"@, "nombre"@], FieldKind::Text),
        col("Lat"@, seq!["centroide"@, "lat"@], FieldKind::Number),
        col("Lon"@, seq!["centroide"@, "lon"@], FieldKind::Number),
    ]
}

fn column1(name: &str, key: &str, kind: FieldKind) -> (r: Column)
    ensures
        r@ == col(name@, seq![key@], kind),
{
    let path = vec![key.to_owned()];
    let r = Column { name: name.to_owned(), path, kind };
    assert(texts(r.path@) =~= seq![key@]);
    r
}

fn column2(name: &str, outer: &str, inner: &str, kind: FieldKind) -> (r: Column)
    ensures
        r@ == col(name@, seq![outer@, inner@], kind),
{
    let path = vec![outer.to_owned(), inner.to_owned()];
    let r = Column { name: name.to_owned(), path, kind };
    assert(texts(r.path@) =~= seq![outer@, inner@]);
    r
}

impl Dataset {
    /// The top-level member of the response that holds the elements.
    pub open spec fn key_spec(self) -> Seq<char> {
        match self {
            Dataset::Municipalities => "municipios"@,
            Dataset::Departments => "departamentos"@,
            Dataset::Localities => "localidades"@,
        }
    }

    /// The columns of the dataset's rows, in order.
    pub open spec fn columns_spec(self) -> Seq<ColumnView> {
        match self {
            Dataset::Localities => locality_columns(),
            _ => place_columns(),
        }
    }

    /// The endpoint that serves the dataset.
    pub open spec fn url_spec(self) -> Seq<char> {
        match self {
            Dataset::Municipalities => "https://apis.datos.gob.ar/georef/api/municipios?max=5000"@,
            Dataset::Departments => "https://apis.datos.gob.ar/georef/api/departamentos?max=5000"@,
            Dataset::Localities => "https://apis.datos.gob.ar/georef/api/localidades?max=5000"@,
        }
    }

    /// The file of the response body.
    pub open spec fn raw_file_spec(self) -> Seq<char> {
        match self {
            Dataset::Municipalities => "data/municipios.json"@,
            Dataset::Departments => "data/departamentos.json"@,
            Dataset::Localities => "data/localidades.json"@,
        }
    }

    /// The file of the table.
    pub open spec fn table_file_spec(self) -> Seq<char> {
        match self {
            Dataset::Municipalities => "data/municipios.csv"@,
            Dataset::Departments => "data/departamentos.csv"@,
            Dataset::Localities => "data/localidades.csv"@,
        }
    }

    pub fn array_key(&self) -> (r: String)
        ensures
            r@ == self.key_spec(),
    {
        match self {
            Dataset::Municipalities => "municipios".to_owned(),
            Dataset::Departments => "departamentos".to_owned(),
            Dataset::Localities => "localidades".to_owned(),
        }
    }

    /// The endpoint that serves the dataset, asking for at most 5000 elements.
    pub fn url(&self) -> (r: String)
        ensures
            r@ == self.url_spec(),
    {
        match self {
            Dataset::Municipalities => "https://apis.datos.gob.ar/georef/api/municipios?max=5000".to_owned(),
            Dataset::Departments => "https://apis.datos.gob.ar/georef/api/departamentos?max=5000".to_owned(),
            Dataset::Localities => "https://apis.datos.gob.ar/georef/api/localidades?max=5000".to_owned(),
        }
    }

    /// The file that receives the response body as it came.
    pub fn raw_file(&self) -> (r: String)
        ensures
            r@ == self.raw_file_spec(),
    {
        match self {
            Dataset::Municipalities => "data/municipios.json".to_owned(),
            Dataset::Departments => "data/departamentos.json".to_owned(),
            Dataset::Localities => "data/localidades.json".to_owned(),
        }
    }

    /// The file that receives the table.
    pub fn table_file(&self) -> (r: String)
        ensures
            r@ == self.table_file_spec(),
    {
        match self {
            Dataset::Municipalities => "data/municipios.csv".to_owned(),
            Dataset::Departments => "data/departamentos.csv".to_owned(),
            Dataset::Localities => "data/localidades.csv".to_owned(),
        }
    }

    /// The columns of the dataset's rows.
    pub fn columns(&self) -> (r: Vec<Column>)
        ensures
            column_views(r@) == self.columns_spec(),
    {
        let r = match self {
            Dataset::Localities => vec![
                column1("id", "id", FieldKind::Text),
                column1("Nombre", "nombre", FieldKind::Text),
                column1("Categoria", "categoria", FieldKind::Text),
                column2("Departamento", "departamento", "nombre", FieldKind::Text),
                column2("Municipio", "municipio", "nombre", FieldKind::Text),
                column2("Provincia", "provincia", "nombre", FieldKind::Text),
                column2("Lat", "centroide", "lat", FieldKind::Number),
                column2("Lon", "centroide", "lon", FieldKind::Number),
            ],
            _ => vec![
                column1("id", "id", FieldKind::Text),
                column1("Nombre", "nombre", FieldKind::Text),
                column2("Provincia", "provincia", "nombre", FieldKind::Text),
                column2("Lat", "centroide", "lat", FieldKind::Number),
                column2("Lon", "centroide", "lon", FieldKind::Number),
            ],
        };
        assert(column_views(r@) =~= self.columns_spec());
        r
    }

    /// The header row: the column names, in order.
    pub fn header(&self) -> (r: Vec<String>)
        ensures
            texts(r@) == header_of(self.columns_spec()),
            texts(r@) == match self {
                Dataset::Localities => seq![
                    "id"@, "Nombre"@, "Categoria"@, "Departamento"@,
                    "Municipio"@, "Provincia"@, "Lat"@, "Lon"@,
                ],
                _ => seq!["id"@, "Nombre"@, "Provincia"@, "Lat"@, "Lon"@],
            },
    {
        let columns = self.columns();
        let mut r: Vec<String> = Vec::new();
        let mut i: usize = 0;
        while i < columns.len()
            invariant
                i <= columns@.len(),
                column_views(columns@) == self.columns_spec(),
                r@.len() == i,
                forall|j: int| 0 <= j < i ==> #[trigger] r@[j]@ == columns@[j].name@,
            decreases columns@.len() - i,
        {
            r.push(columns[i].name.clone());
            i = i + 1;
        }
        assert(texts(r@) =~= header_of(self.columns_spec()));
        r
    }
}

} // verus!
